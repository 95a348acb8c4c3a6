use vstd::prelude::*;
use vstd::string::StringExecFns;

use crate::script::render_entry_name;
use crate::script::update_entry_name;
use crate::script::EntryKind;
use crate::script::LoadError;
use crate::script::LoadProbe;
use crate::script::load_ok;

verus! {

/// The main game object: the application configuration, accumulated through a
/// fluent chain of setters.
///
/// Every field has a safe default, so the object is valid at every step of
/// construction; no partially-initialized state is reachable. The terminal
/// operations — validating the main script and starting the application —
/// consume the object.
pub struct Clog {
    /// The window title of the game.
    pub title: String,

    /// The window width dimension, in pixels; always positive.
    pub width: i32,

    /// The window height dimension, in pixels; always positive.
    pub height: i32,

    /// How many MSAA samples are used for rendering the vector graphics;
    /// never negative.
    pub sample_count: i32,

    /// Vector images to upload during the loading phase, as ordered
    /// (reference name, source) pairs. Later registrations under the same
    /// reference name deliberately shadow earlier ones; no deduplication is
    /// performed here.
    pub svgs: Vec<(String, String)>,

    /// Fonts to load, as ordered (reference name, source) pairs, with the
    /// same shadowing behaviour as `svgs`.
    pub fonts: Vec<(String, String)>,
}

impl Clog {
    /// The configuration invariant: window dimensions are positive and the
    /// sample count is non-negative. Established by `new` and preserved by
    /// every setter.
    pub open spec fn wf(self) -> bool {
        &&& 1 <= self.width
        &&& 1 <= self.height
        &&& 0 <= self.sample_count
    }

    /// Set up a new game with the given window title and the default
    /// configuration: an 800 by 800 window, 8 MSAA samples, and no assets.
    pub fn new(title: String) -> (r: Self)
        ensures
            r.title == title,
            r.width == 800,
            r.height == 800,
            r.sample_count == 8,
            r.svgs@ == Seq::<(String, String)>::empty(),
            r.fonts@ == Seq::<(String, String)>::empty(),
            r.wf(),
    {
        Clog {
            title,
            width: 800,
            height: 800,
            sample_count: 8,
            svgs: Vec::new(),
            fonts: Vec::new(),
        }
    }

    /// Set the initial window width.
    pub fn width(self, width: i32) -> (r: Self)
        requires
            1 <= width,
        ensures
            r == (Clog { width, ..self }),
    {
        Clog { width, ..self }
    }

    /// Set the initial window height.
    pub fn height(self, height: i32) -> (r: Self)
        requires
            1 <= height,
        ensures
            r == (Clog { height, ..self }),
    {
        Clog { height, ..self }
    }

    /// Set how many MSAA samples are used for rendering the vector graphics.
    pub fn sample_count(self, sample_count: i32) -> (r: Self)
        requires
            0 <= sample_count,
        ensures
            r == (Clog { sample_count, ..self }),
    {
        Clog { sample_count, ..self }
    }

    /// Add a vector image that will be uploaded to the GPU during the loading
    /// phase. The `reference_name` can later be used in scripts to create
    /// instances of the image's mesh. Registering a name twice keeps both
    /// pairs in order, the later one shadowing the earlier downstream.
    pub fn load_svg(self, reference_name: String, svg_source: String) -> (r: Self)
        ensures
            r.svgs@ == self.svgs@.push((reference_name, svg_source)),
            r == (Clog { svgs: r.svgs, ..self }),
    {
        let mut game = self;
        game.svgs.push((reference_name, svg_source));
        game
    }

    /// Add a font that will be loaded during the loading phase, under a
    /// reference name usable from scripts, with the same ordering and
    /// shadowing behaviour as `load_svg`.
    pub fn load_font(self, reference_name: String, font_source: String) -> (r: Self)
        ensures
            r.fonts@ == self.fonts@.push((reference_name, font_source)),
            r == (Clog { fonts: r.fonts, ..self }),
    {
        let mut game = self;
        game.fonts.push((reference_name, font_source));
        game
    }

    /// How a failed entry-point check must be reported: loading failed with
    /// `MissingEntryPoint`, naming the entry point `entry` and describing the
    /// non-callable value that was found, or `None` when the name was not
    /// bound at all.
    pub open spec fn reports_missing(
        r: Result<Clog, LoadError>,
        entry: Seq<char>,
        found: Option<String>,
    ) -> bool {
        &&& r matches Err(LoadError::MissingEntryPoint { name, found: f })
        &&& name@ == entry
        &&& f == found
    }

    /// Validate the main script of the game from the result of evaluating it
    /// inside an interpreter scope.
    ///
    /// The script must define the two entry points `engine:update` and
    /// `engine:render`, each bound to a callable value. Loading succeeds,
    /// yielding the launch-ready configuration unchanged, exactly when
    /// evaluation completed and both checks pass. Otherwise it fails with the
    /// error the probe dictates: a scope that could not execute is a
    /// `RuntimeFailure`; a parse or evaluation diagnostic is carried through
    /// verbatim; and a missing or non-callable entry point is reported as
    /// `MissingEntryPoint`, naming the update entry point first — the update
    /// check aborts loading before the render check runs.
    pub fn main_script(self, probe: LoadProbe) -> (r: Result<Clog, LoadError>)
        ensures
            r is Ok <==> load_ok(probe),
            r matches Ok(c) ==> c == self,
            probe is ScopeFailed ==> r == Err::<Clog, LoadError>(LoadError::RuntimeFailure),
            probe matches LoadProbe::ParseFailed(m) ==> r == Err::<Clog, LoadError>(
                LoadError::ParseError(m),
            ),
            probe matches LoadProbe::EvalFailed(m) ==> r == Err::<Clog, LoadError>(
                LoadError::EvalError(m),
            ),
            probe matches LoadProbe::Evaluated { update: EntryKind::NotCallable(d), .. }
                ==> Self::reports_missing(r, "engine:update"@, Some(d)),
            probe matches LoadProbe::Evaluated { update: EntryKind::Unbound(_), .. }
                ==> Self::reports_missing(r, "engine:update"@, None::<String>),
            probe matches LoadProbe::Evaluated {
                update: EntryKind::Callable,
                render: EntryKind::NotCallable(d),
            } ==> Self::reports_missing(r, "engine:render"@, Some(d)),
            probe matches LoadProbe::Evaluated {
                update: EntryKind::Callable,
                render: EntryKind::Unbound(_),
            } ==> Self::reports_missing(r, "engine:render"@, None::<String>),
    {
        match probe {
            LoadProbe::ScopeFailed => Err(LoadError::RuntimeFailure),
            LoadProbe::ParseFailed(m) => Err(LoadError::ParseError(m)),
            LoadProbe::EvalFailed(m) => Err(LoadError::EvalError(m)),
            LoadProbe::Evaluated { update, render } => {
                match update {
                    EntryKind::Callable => {},
                    EntryKind::NotCallable(d) => {
                        return Err(LoadError::MissingEntryPoint {
                            name: String::from_str(update_entry_name()),
                            found: Some(d),
                        });
                    },
                    EntryKind::Unbound(_) => {
                        return Err(LoadError::MissingEntryPoint {
                            name: String::from_str(update_entry_name()),
                            found: None,
                        });
                    },
                }
                match render {
                    EntryKind::Callable => Ok(self),
                    EntryKind::NotCallable(d) => Err(LoadError::MissingEntryPoint {
                        name: String::from_str(render_entry_name()),
                        found: Some(d),
                    }),
                    EntryKind::Unbound(_) => Err(LoadError::MissingEntryPoint {
                        name: String::from_str(render_entry_name()),
                        found: None,
                    }),
                }
            },
        }
    }
}

/// Law: whether loading succeeds is a function of the probe alone. Two load
/// attempts whose scripts evaluated the same way — in particular, two loads of
/// the same source into fresh interpreter instances that behaved identically —
/// yield the same success or failure outcome.
pub proof fn lemma_load_outcome_deterministic(p1: LoadProbe, p2: LoadProbe)
    requires
        p1 == p2,
    ensures
        load_ok(p1) == load_ok(p2),
{
}

} // verus!
