use vstd::prelude::*;
use crate::names::{names_of, validation_layer_spec};
use crate::negotiate::{
    extend_for_portability, layer_check_passes, needs_portability_shim, negotiate_layers,
    negotiated_extensions, negotiated_flags, requested_layers, shim_applies, BootstrapError,
    BuildConfig, NegotiatedConfig, NegotiatedView,
};
use crate::version::DriverVersion;

verus! {

/// Where the bring-up and life of the instance stand.
#[derive(Clone, Copy, Debug, PartialEq, Eq, Structural)]
pub enum Stage {
    /// The driver library is being loaded.
    Uninitialized,
    /// Waiting for the layers the driver offers.
    QueryingLayers,
    /// Waiting for the extensions the window needs.
    QueryingExtensions,
    /// Waiting for the driver's version (macOS only).
    QueryingVersion,
    /// The creation request is out; waiting for the driver's answer.
    Creating,
    /// The instance exists and may be used.
    Live,
    /// The instance was destroyed; nothing more happens.
    Destroyed,
    /// Bring-up failed; no instance exists and nothing more happens.
    Failed,
}

/// What the host reports to the bootstrap: the answers of the driver and the
/// window, and the events of the host's loop.
#[derive(Debug)]
pub enum Event {
    /// The driver library and its global functions were resolved.
    EntryLoaded,
    /// The driver library could not be loaded.
    LoaderFailed,
    /// The names of the layers the driver offers.
    LayersListed(Vec<String>),
    /// The names of the extensions the window needs.
    ExtensionsRequired(Vec<String>),
    /// The driver's API version.
    VersionReported(DriverVersion),
    /// A query to the driver (layers or version) failed.
    QueryFailed,
    /// The driver created the instance.
    InstanceCreated,
    /// The driver refused to create the instance, with its result code.
    CreationFailed(i32),
    /// The window asks to be redrawn; `exiting` tells whether the loop is closing.
    RedrawRequested { exiting: bool },
    /// The loop has handled all pending events.
    AboutToWait,
    /// The window was asked to close.
    CloseRequested,
}

/// What the host is to do next.
#[derive(Debug)]
pub enum Action {
    /// Enumerate the layers the driver offers.
    QueryLayers,
    /// Ask the window which extensions it needs.
    QueryRequiredExtensions,
    /// Ask the driver for its version.
    QueryVersion,
    /// Create the instance with the application info and this configuration.
    CreateInstance(NegotiatedConfig),
    /// Render a frame.
    Render,
    /// Ask the window for another redraw.
    RequestRedraw,
    /// Stop the loop, then destroy the instance.
    Shutdown,
    /// Give up bring-up with this error.
    Abort(BootstrapError),
    /// Nothing to do.
    Idle,
}

/// The value of an [`Action`].
pub enum ActionView {
    QueryLayers,
    QueryRequiredExtensions,
    QueryVersion,
    CreateInstance(NegotiatedView),
    Render,
    RequestRedraw,
    Shutdown,
    Abort(BootstrapError),
    Idle,
}

impl View for Action {
    type V = ActionView;

    open spec fn view(&self) -> ActionView {
        match self {
            Action::QueryLayers => ActionView::QueryLayers,
            Action::QueryRequiredExtensions => ActionView::QueryRequiredExtensions,
            Action::QueryVersion => ActionView::QueryVersion,
            Action::CreateInstance(c) => ActionView::CreateInstance(c@),
            Action::Render => ActionView::Render,
            Action::RequestRedraw => ActionView::RequestRedraw,
            Action::Shutdown => ActionView::Shutdown,
            Action::Abort(e) => ActionView::Abort(*e),
            Action::Idle => ActionView::Idle,
        }
    }
}

/// Drives the creation of the instance and its life until it is destroyed.
/// The host performs each action and reports what came of it.
#[derive(Debug)]
pub struct Bootstrap {
    config: BuildConfig,
    stage: Stage,
    layers: Vec<String>,
    extensions: Vec<String>,
}

/// The value of a [`Bootstrap`]: its switches, its stage, the layers decided
/// on and the extensions gathered so far.
pub struct BootstrapView {
    pub config: BuildConfig,
    pub stage: Stage,
    pub layers: Seq<Seq<char>>,
    pub extensions: Seq<Seq<char>>,
}

impl View for Bootstrap {
    type V = BootstrapView;

    closed spec fn view(&self) -> BootstrapView {
        BootstrapView {
            config: self.config,
            stage: self.stage,
            layers: names_of(self.layers@),
            extensions: names_of(self.extensions@),
        }
    }
}

/// A bootstrap in `stage` with no layers or extensions gathered.
pub open spec fn at_stage(config: BuildConfig, stage: Stage) -> BootstrapView {
    BootstrapView { config, stage, layers: Seq::empty(), extensions: Seq::empty() }
}

/// The request to create the instance once the extensions are final.
pub open spec fn creation(s: BootstrapView, extensions: Seq<Seq<char>>, shim: bool) -> (
    BootstrapView,
    ActionView,
) {
    (
        at_stage(s.config, Stage::Creating),
        ActionView::CreateInstance(
            NegotiatedView {
                layers: s.layers,
                extensions: negotiated_extensions(extensions, shim),
                flags: negotiated_flags(shim),
            },
        ),
    )
}

/// One step: the next state and action after `e` in state `s`. Events that do
/// not belong to the current stage change nothing.
pub open spec fn next(s: BootstrapView, e: Event) -> (BootstrapView, ActionView) {
    let unchanged = (s, ActionView::Idle);
    match s.stage {
        Stage::Uninitialized => match e {
            Event::EntryLoaded => (at_stage(s.config, Stage::QueryingLayers), ActionView::QueryLayers),
            Event::LoaderFailed => (
                at_stage(s.config, Stage::Failed),
                ActionView::Abort(BootstrapError::LoaderError),
            ),
            _ => unchanged,
        },
        Stage::QueryingLayers => match e {
            Event::LayersListed(available) => if layer_check_passes(
                s.config.validation_enabled,
                names_of(available@),
            ) {
                (
                    BootstrapView {
                        config: s.config,
                        stage: Stage::QueryingExtensions,
                        layers: requested_layers(s.config.validation_enabled),
                        extensions: Seq::empty(),
                    },
                    ActionView::QueryRequiredExtensions,
                )
            } else {
                (
                    at_stage(s.config, Stage::Failed),
                    ActionView::Abort(BootstrapError::MissingValidationLayer),
                )
            },
            Event::QueryFailed => (
                at_stage(s.config, Stage::Failed),
                ActionView::Abort(BootstrapError::LoaderError),
            ),
            _ => unchanged,
        },
        Stage::QueryingExtensions => match e {
            Event::ExtensionsRequired(required) => if s.config.macos {
                (
                    BootstrapView {
                        config: s.config,
                        stage: Stage::QueryingVersion,
                        layers: s.layers,
                        extensions: names_of(required@),
                    },
                    ActionView::QueryVersion,
                )
            } else {
                creation(s, names_of(required@), false)
            },
            _ => unchanged,
        },
        Stage::QueryingVersion => match e {
            Event::VersionReported(v) => creation(s, s.extensions, shim_applies(s.config.macos, v)),
            Event::QueryFailed => (
                at_stage(s.config, Stage::Failed),
                ActionView::Abort(BootstrapError::LoaderError),
            ),
            _ => unchanged,
        },
        Stage::Creating => match e {
            Event::InstanceCreated => (at_stage(s.config, Stage::Live), ActionView::Idle),
            Event::CreationFailed(code) => (
                at_stage(s.config, Stage::Failed),
                ActionView::Abort(BootstrapError::InstanceCreationError(code)),
            ),
            _ => unchanged,
        },
        Stage::Live => match e {
            Event::RedrawRequested { exiting } => if exiting {
                unchanged
            } else {
                (s, ActionView::Render)
            },
            Event::AboutToWait => (s, ActionView::RequestRedraw),
            Event::CloseRequested => (at_stage(s.config, Stage::Destroyed), ActionView::Shutdown),
            _ => unchanged,
        },
        Stage::Destroyed => unchanged,
        Stage::Failed => unchanged,
    }
}

/// The state holds layers only once they are decided, and extensions only
/// while it waits for the driver's version.
pub open spec fn well_formed(s: BootstrapView) -> bool {
    &&& (s.stage == Stage::QueryingExtensions || s.stage == Stage::QueryingVersion) ==> s.layers
        == requested_layers(s.config.validation_enabled)
    &&& !(s.stage == Stage::QueryingExtensions || s.stage == Stage::QueryingVersion)
        ==> s.layers.len() == 0
    &&& s.stage != Stage::QueryingVersion ==> s.extensions.len() == 0
    &&& s.stage == Stage::QueryingVersion ==> s.config.macos
}

/// Every step keeps the state well formed, and a request to create the
/// instance carries exactly the layers the build asks for, requested only after
/// the driver was found to offer them.
pub proof fn lemma_step_well_formed(s: BootstrapView, e: Event)
    requires
        well_formed(s),
    ensures
        well_formed(next(s, e).0),
        next(s, e).1 is CreateInstance ==> next(s, e).1->CreateInstance_0.layers == requested_layers(
            s.config.validation_enabled,
        ) && (s.stage == Stage::QueryingExtensions || s.stage == Stage::QueryingVersion),
{
}

/// The final state and the actions, in order, after each of `events` in turn
/// from state `s`.
pub open spec fn run(s: BootstrapView, events: Seq<Event>) -> (BootstrapView, Seq<ActionView>)
    decreases events.len(),
{
    if events.len() == 0 {
        (s, Seq::empty())
    } else {
        let (s1, a) = next(s, events[0]);
        let (s2, rest) = run(s1, events.drop_first());
        (s2, seq![a] + rest)
    }
}

/// How many of `actions` destroy the instance.
pub open spec fn shutdowns(actions: Seq<ActionView>) -> nat
    decreases actions.len(),
{
    if actions.len() == 0 {
        0
    } else {
        (if actions[0] is Shutdown {
            1nat
        } else {
            0nat
        }) + shutdowns(actions.drop_first())
    }
}

/// An event that is no listing of layers holding the validation layer.
pub open spec fn lacks_validation(e: Event) -> bool {
    e matches Event::LayersListed(available) ==> !names_of(available@).contains(
        validation_layer_spec(),
    )
}

proof fn lemma_run_unfold(s: BootstrapView, events: Seq<Event>)
    requires
        events.len() > 0,
    ensures
        run(s, events).0 == run(next(s, events[0]).0, events.drop_first()).0,
        run(s, events).1 == seq![next(s, events[0]).1] + run(
            next(s, events[0]).0,
            events.drop_first(),
        ).1,
{
}

proof fn lemma_destroyed_is_final(s: BootstrapView, events: Seq<Event>)
    requires
        s.stage == Stage::Destroyed,
    ensures
        run(s, events).0.stage == Stage::Destroyed,
        shutdowns(run(s, events).1) == 0,
    decreases events.len(),
{
    if events.len() > 0 {
        lemma_run_unfold(s, events);
        lemma_destroyed_is_final(s, events.drop_first());
        let acts = run(s, events).1;
        assert(acts.drop_first() =~= run(s, events.drop_first()).1);
    }
}

/// The instance is destroyed only from the live stage, which it then leaves
/// for good: whatever events follow, it is destroyed at most once, and never
/// again once destroyed.
pub proof fn lemma_single_destruction(s: BootstrapView, e: Event, events: Seq<Event>)
    ensures
        next(s, e).1 is Shutdown ==> s.stage == Stage::Live && next(s, e).0.stage
            == Stage::Destroyed,
        shutdowns(run(s, events).1) <= 1,
        s.stage == Stage::Destroyed ==> shutdowns(run(s, events).1) == 0,
    decreases events.len(),
{
    if events.len() > 0 {
        let (s1, a) = next(s, events[0]);
        let rest = events.drop_first();
        lemma_run_unfold(s, events);
        let acts = run(s, events).1;
        assert(acts.drop_first() =~= run(s1, rest).1);
        if a is Shutdown {
            lemma_destroyed_is_final(s1, rest);
        } else {
            lemma_single_destruction(s1, e, rest);
        }
        if s.stage == Stage::Destroyed {
            lemma_destroyed_is_final(s, events);
        }
    }
}

/// With diagnostics enabled, before the layers are known, and with no listing
/// of available layers that holds the validation layer, no request to create
/// an instance is ever made and no instance becomes live.
pub proof fn lemma_no_creation_without_validation(s: BootstrapView, events: Seq<Event>)
    requires
        s.config.validation_enabled,
        s.stage == Stage::Uninitialized || s.stage == Stage::QueryingLayers || s.stage
            == Stage::Failed,
        forall|i: int| 0 <= i < events.len() ==> lacks_validation(#[trigger] events[i]),
    ensures
        forall|i: int|
            0 <= i < run(s, events).1.len() ==> !(#[trigger] run(s, events).1[i] is CreateInstance),
        run(s, events).0.stage != Stage::Live,
    decreases events.len(),
{
    if events.len() > 0 {
        let (s1, a) = next(s, events[0]);
        let rest = events.drop_first();
        assert(lacks_validation(events[0]));
        assert(forall|i: int| 0 <= i < rest.len() ==> rest[i] == events[i + 1]);
        lemma_run_unfold(s, events);
        lemma_no_creation_without_validation(s1, rest);
        let acts = run(s, events).1;
        assert forall|i: int| 0 <= i < acts.len() implies !(#[trigger] acts[i] is CreateInstance) by {
            if i > 0 {
                assert(acts[i] == run(s1, rest).1[i - 1]);
            }
        }
    }
}

impl Bootstrap {
    /// A bootstrap that has not started loading the driver.
    pub fn new(config: BuildConfig) -> (r: Bootstrap)
        ensures
            r@ == at_stage(config, Stage::Uninitialized),
            well_formed(r@),
    {
        let r = Bootstrap { config, stage: Stage::Uninitialized, layers: Vec::new(), extensions: Vec::new() };
        assert(r@.layers =~= Seq::empty());
        assert(r@.extensions =~= Seq::empty());
        r
    }

    pub fn stage(&self) -> (r: Stage)
        ensures
            r == self@.stage,
    {
        self.stage
    }

    pub fn config(&self) -> (r: BuildConfig)
        ensures
            r == self@.config,
    {
        self.config
    }

    /// Whether the instance exists and may be used.
    pub fn is_live(&self) -> (r: bool)
        ensures
            r == (self@.stage == Stage::Live),
    {
        self.stage == Stage::Live
    }

    /// Moves to `stage`, dropping the gathered names.
    fn enter(&mut self, stage: Stage)
        ensures
            final(self)@ == at_stage(old(self)@.config, stage),
    {
        self.stage = stage;
        self.layers = Vec::new();
        self.extensions = Vec::new();
        assert(self@.layers =~= Seq::empty());
        assert(self@.extensions =~= Seq::empty());
    }

    /// Enters `Creating` and hands out the request built from the layers held
    /// and `extensions`, extended by the portability shim where it applies.
    fn request_creation(&mut self, extensions: Vec<String>, shim: bool) -> (a: Action)
        ensures
            (final(self)@, a@) == creation(old(self)@, names_of(extensions@), shim),
    {
        let ghost given = names_of(extensions@);
        let mut layers: Vec<String> = Vec::new();
        std::mem::swap(&mut layers, &mut self.layers);
        let mut extensions = extensions;
        let flags = extend_for_portability(&mut extensions, shim);
        self.enter(Stage::Creating);
        let a = Action::CreateInstance(NegotiatedConfig { layers, extensions, flags });
        let ghost want = creation(old(self)@, given, shim);
        assert(a@ == want.1);
        a
    }

    /// Takes in what the host reports and says what it is to do next.
    pub fn step(&mut self, event: Event) -> (action: Action)
        ensures
            (final(self)@, action@) == next(old(self)@, event),
            well_formed(old(self)@) ==> well_formed(final(self)@),
    {
        let ghost e = event;
        let action = match self.stage {
            Stage::Uninitialized => match event {
                Event::EntryLoaded => {
                    self.enter(Stage::QueryingLayers);
                    Action::QueryLayers
                },
                Event::LoaderFailed => {
                    self.enter(Stage::Failed);
                    Action::Abort(BootstrapError::LoaderError)
                },
                _ => Action::Idle,
            },
            Stage::QueryingLayers => match event {
                Event::LayersListed(available) => {
                    match negotiate_layers(&available, self.config.validation_enabled) {
                        Ok(layers) => {
                            self.enter(Stage::QueryingExtensions);
                            self.layers = layers;
                            Action::QueryRequiredExtensions
                        },
                        Err(err) => {
                            self.enter(Stage::Failed);
                            Action::Abort(err)
                        },
                    }
                },
                Event::QueryFailed => {
                    self.enter(Stage::Failed);
                    Action::Abort(BootstrapError::LoaderError)
                },
                _ => Action::Idle,
            },
            Stage::QueryingExtensions => match event {
                Event::ExtensionsRequired(required) => {
                    if self.config.macos {
                        self.stage = Stage::QueryingVersion;
                        self.extensions = required;
                        Action::QueryVersion
                    } else {
                        self.request_creation(required, false)
                    }
                },
                _ => Action::Idle,
            },
            Stage::QueryingVersion => match event {
                Event::VersionReported(v) => {
                    let shim = needs_portability_shim(self.config.macos, &v);
                    let mut extensions: Vec<String> = Vec::new();
                    std::mem::swap(&mut extensions, &mut self.extensions);
                    self.request_creation(extensions, shim)
                },
                Event::QueryFailed => {
                    self.enter(Stage::Failed);
                    Action::Abort(BootstrapError::LoaderError)
                },
                _ => Action::Idle,
            },
            Stage::Creating => match event {
                Event::InstanceCreated => {
                    self.enter(Stage::Live);
                    Action::Idle
                },
                Event::CreationFailed(code) => {
                    self.enter(Stage::Failed);
                    Action::Abort(BootstrapError::InstanceCreationError(code))
                },
                _ => Action::Idle,
            },
            Stage::Live => match event {
                Event::RedrawRequested { exiting } => {
                    if exiting {
                        Action::Idle
                    } else {
                        Action::Render
                    }
                },
                Event::AboutToWait => Action::RequestRedraw,
                Event::CloseRequested => {
                    self.enter(Stage::Destroyed);
                    Action::Shutdown
                },
                _ => Action::Idle,
            },
            Stage::Destroyed => Action::Idle,
            Stage::Failed => Action::Idle,
        };
        proof {
            if well_formed(old(self)@) {
                lemma_step_well_formed(old(self)@, e);
            }
        }
        action
    }
}

} // verus!
