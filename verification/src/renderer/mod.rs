//! The renderer's decisions: which commands start or stop the display, what
//! each command is answered, and the components being drawn. The display
//! itself and the command channel are driven by the caller, which performs the
//! returned display action and sends the reply.

use vstd::prelude::*;

use crate::graphics_component::color::{
    gradient_domain_accepted, keyframe_keys, keyframes_accepted, mk_gradient, ColorSpec,
};
use crate::graphics_component::draw::color_state::color_spec_drawable;
use crate::graphics_component::draw::component_drawer::{asset_drawable, component_drawable, missing_image_msg, source_drawable};
use crate::graphics_component::draw::movement::{motion_supported, unsupported_motion_msg};
use crate::graphics_component::draw::{DrawerCreationError, MovableComponentDrawer};
use crate::graphics_component::{
    component_values, motion_of, Component, ComponentList, ComponentValue,
};
use crate::upload::{UploadManager, UploadedAsset};

verus! {

/// Why a command failed.
#[derive(Debug)]
pub enum CommandError {
    InternalServerError(String),
    UserInputError(String),
}

impl CommandError {
    /// A refused component is bad user input; any other failure is internal.
    pub fn from(e: DrawerCreationError) -> (r: Self)
        ensures
            e matches DrawerCreationError::BadComponentSpec(s) ==> (r matches CommandError::UserInputError(t) && t@ == s@),
            e matches DrawerCreationError::_GeneralError(s) ==> (r matches CommandError::InternalServerError(t) && t@ == s@),
    {
        match e {
            DrawerCreationError::BadComponentSpec(s) => Self::UserInputError(s),
            DrawerCreationError::_GeneralError(s) => Self::InternalServerError(s),
        }
    }
}

/// A command sent to the renderer.
#[derive(Debug)]
pub enum Command {
    Start,
    Stop,
    GetComponents,
    SetComponents { components: ComponentList },
}

/// Whether the display is being refreshed.
#[derive(Debug, PartialEq, Eq, Structural, Clone, Copy)]
pub enum State {
    Stopped,
    Rendering,
}

/// What the caller must do to the display after a command.
#[derive(Debug, PartialEq, Eq, Structural, Clone, Copy)]
pub enum DisplayAction {
    Keep,
    StartDisplay,
    StopDisplay,
}

/// The answer to a command.
#[derive(Debug)]
pub enum Reply {
    Done(bool),
    Components(ComponentList),
    SetResult(Result<(), CommandError>),
}

/// A command, its components taken by value.
pub enum CommandValue {
    Start,
    Stop,
    GetComponents,
    SetComponents(Seq<ComponentValue>),
}

/// An answer, its components and error text taken by value.
pub enum ReplyValue {
    Done(bool),
    Components(Seq<ComponentValue>),
    SetAccepted,
    SetRefused(Seq<char>),
    SetFailed(Seq<char>),
}

/// The value of a command.
pub open spec fn command_value(c: Command) -> CommandValue {
    match c {
        Command::Start => CommandValue::Start,
        Command::Stop => CommandValue::Stop,
        Command::GetComponents => CommandValue::GetComponents,
        Command::SetComponents { components } => CommandValue::SetComponents(component_values(components@)),
    }
}

/// The value of an answer.
pub open spec fn reply_value(r: Reply) -> ReplyValue {
    match r {
        Reply::Done(b) => ReplyValue::Done(b),
        Reply::Components(c) => ReplyValue::Components(component_values(c@)),
        Reply::SetResult(Ok(())) => ReplyValue::SetAccepted,
        Reply::SetResult(Err(CommandError::UserInputError(s))) => ReplyValue::SetRefused(s@),
        Reply::SetResult(Err(CommandError::InternalServerError(s))) => ReplyValue::SetFailed(s@),
    }
}

/// A component the renderer accepts: an image names a stored file, and a
/// scrolling component repeats at some distance and moves at most that
/// distance per frame.
pub open spec fn component_accepted(c: ComponentValue, assets: Map<Seq<char>, UploadedAsset>) -> bool {
    &&& (c matches ComponentValue::Image(i) ==> assets.contains_key(i.source))
    &&& (motion_of(c) matches Some(m) ==> motion_supported(m))
}

/// Why the renderer refuses a component.
pub open spec fn refusal_msg(c: ComponentValue, assets: Map<Seq<char>, UploadedAsset>) -> Seq<char> {
    if c matches ComponentValue::Image(i) && !assets.contains_key(i.source) {
        missing_image_msg()
    } else {
        unsupported_motion_msg(motion_of(c)->Some_0.distance_per_tick, motion_of(c)->Some_0.periodicity)
    }
}

/// Why a list of components that cannot be drawn is refused.
pub open spec fn undrawable_msg() -> Seq<char> {
    "Component cannot be drawn"@
}

/// Every component of a list is accepted.
pub open spec fn all_accepted(list: Seq<ComponentValue>, assets: Map<Seq<char>, UploadedAsset>) -> bool {
    forall|i: int| 0 <= i < list.len() ==> component_accepted(#[trigger] list[i], assets)
}

/// `i` is the first component of the list that is refused.
pub open spec fn first_refused(list: Seq<ComponentValue>, assets: Map<Seq<char>, UploadedAsset>, i: int) -> bool {
    &&& 0 <= i < list.len()
    &&& !component_accepted(list[i], assets)
    &&& forall|j: int| 0 <= j < i ==> component_accepted(#[trigger] list[j], assets)
}

/// Why a list of components is refused: the reason of its first refused component.
pub open spec fn list_refusal_msg(list: Seq<ComponentValue>, assets: Map<Seq<char>, UploadedAsset>) -> Seq<char> {
    refusal_msg(list[choose|i: int| first_refused(list, assets, i)], assets)
}

/// Every component of a list can be turned into a drawer without failing.
pub open spec fn all_drawable(list: Seq<ComponentValue>, assets: Map<Seq<char>, UploadedAsset>) -> bool {
    forall|i: int| 0 <= i < list.len() ==> component_drawable(#[trigger] list[i], assets)
}

/// What a command does: the next display state, the components drawn
/// afterwards, the answer and the display action.
pub open spec fn transition(
    state: State,
    components: Seq<ComponentValue>,
    command: CommandValue,
    assets: Map<Seq<char>, UploadedAsset>,
) -> (State, Seq<ComponentValue>, ReplyValue, DisplayAction) {
    match command {
        CommandValue::Start => match state {
            State::Stopped => (State::Rendering, components, ReplyValue::Done(true), DisplayAction::StartDisplay),
            State::Rendering => (State::Rendering, components, ReplyValue::Done(true), DisplayAction::Keep),
        },
        CommandValue::Stop => match state {
            State::Stopped => (State::Stopped, components, ReplyValue::Done(true), DisplayAction::Keep),
            State::Rendering => (State::Stopped, components, ReplyValue::Done(true), DisplayAction::StopDisplay),
        },
        CommandValue::GetComponents => (state, components, ReplyValue::Components(components), DisplayAction::Keep),
        CommandValue::SetComponents(list) => if all_accepted(list, assets) {
            (state, list, ReplyValue::SetAccepted, DisplayAction::Keep)
        } else {
            (state, components, ReplyValue::SetRefused(list_refusal_msg(list, assets)), DisplayAction::Keep)
        },
    }
}

/// Reading the components after an accepted update gives back exactly the
/// components that were set, in order; neither command touches the display.
pub proof fn lemma_set_then_get(
    state: State,
    components: Seq<ComponentValue>,
    list: Seq<ComponentValue>,
    assets: Map<Seq<char>, UploadedAsset>,
)
    requires
        all_accepted(list, assets),
    ensures
        ({
            let (s1, c1, r1, a1) = transition(state, components, CommandValue::SetComponents(list), assets);
            let (s2, c2, r2, a2) = transition(s1, c1, CommandValue::GetComponents, assets);
            &&& r1 == ReplyValue::SetAccepted
            &&& r2 == ReplyValue::Components(list)
            &&& s2 == state
            &&& c2 == list
            &&& a1 == DisplayAction::Keep
            &&& a2 == DisplayAction::Keep
        }),
{
}

/// A refused update leaves the components as they were, and says why the
/// first refused component was refused.
pub proof fn lemma_refused_set_keeps_components(
    state: State,
    components: Seq<ComponentValue>,
    list: Seq<ComponentValue>,
    assets: Map<Seq<char>, UploadedAsset>,
)
    requires
        !all_accepted(list, assets),
    ensures
        ({
            let (s1, c1, r1, a1) = transition(state, components, CommandValue::SetComponents(list), assets);
            &&& s1 == state
            &&& c1 == components
            &&& r1 == ReplyValue::SetRefused(list_refusal_msg(list, assets))
            &&& a1 == DisplayAction::Keep
        }),
        exists|i: int| first_refused(list, assets, i),
{
    let k = choose|k: int| 0 <= k < list.len() && !component_accepted(list[k], assets);
    lemma_some_first_refused(list, assets, k);
}

proof fn lemma_some_first_refused(list: Seq<ComponentValue>, assets: Map<Seq<char>, UploadedAsset>, k: int)
    requires
        0 <= k < list.len(),
        !component_accepted(list[k], assets),
    ensures
        exists|i: int| first_refused(list, assets, i),
    decreases k,
{
    if exists|j: int| 0 <= j < k && !component_accepted(list[j], assets) {
        let j = choose|j: int| 0 <= j < k && !component_accepted(list[j], assets);
        lemma_some_first_refused(list, assets, j);
    } else {
        assert(first_refused(list, assets, k));
    }
}

/// Turning the display on or off keeps the components; on is rendering and off
/// is stopped whatever the state before; the display is started or stopped only
/// when the state changes; every such command is answered `true`.
pub proof fn lemma_display_switch(
    state: State,
    components: Seq<ComponentValue>,
    assets: Map<Seq<char>, UploadedAsset>,
)
    ensures
        ({
            let (s1, c1, r1, a1) = transition(state, components, CommandValue::Start, assets);
            &&& s1 == State::Rendering
            &&& c1 == components
            &&& r1 == ReplyValue::Done(true)
            &&& (a1 == DisplayAction::StartDisplay <==> state == State::Stopped)
            &&& (a1 != DisplayAction::StartDisplay ==> a1 == DisplayAction::Keep)
        }),
        ({
            let (s1, c1, r1, a1) = transition(state, components, CommandValue::Stop, assets);
            &&& s1 == State::Stopped
            &&& c1 == components
            &&& r1 == ReplyValue::Done(true)
            &&& (a1 == DisplayAction::StopDisplay <==> state == State::Rendering)
            &&& (a1 != DisplayAction::StopDisplay ==> a1 == DisplayAction::Keep)
        }),
{
}

/// After an accepted update, any number of drawn frames (each of which keeps
/// the components, as [`RendererCore::advance_frame`] ensures) leave reading
/// the components giving back exactly the list that was set.
pub proof fn lemma_set_frames_then_get(
    state: State,
    components: Seq<ComponentValue>,
    list: Seq<ComponentValue>,
    assets: Map<Seq<char>, UploadedAsset>,
    frames: Seq<Seq<ComponentValue>>,
    k: int,
)
    requires
        all_accepted(list, assets),
        frames.len() >= 1,
        frames[0] == transition(state, components, CommandValue::SetComponents(list), assets).1,
        forall|i: int| 0 <= i < frames.len() - 1 ==> #[trigger] frames[i + 1] == frames[i],
        0 <= k < frames.len(),
    ensures
        transition(state, frames[k], CommandValue::GetComponents, assets).2 == ReplyValue::Components(list),
    decreases k,
{
    if k > 0 {
        lemma_set_frames_then_get(state, components, list, assets, frames, k - 1);
        assert(frames[(k - 1) + 1] == frames[k - 1]);
    }
}

/// Reading the components changes nothing.
pub proof fn lemma_get_is_read_only(
    state: State,
    components: Seq<ComponentValue>,
    assets: Map<Seq<char>, UploadedAsset>,
)
    ensures
        transition(state, components, CommandValue::GetComponents, assets) == (
            state,
            components,
            ReplyValue::Components(components),
            DisplayAction::Keep,
        ),
{
}

/// The components drawn by a list of drawers.
pub open spec fn drawn_components(drawers: Seq<MovableComponentDrawer>) -> Seq<ComponentValue> {
    drawers.map_values(|d: MovableComponentDrawer| d.spec_component())
}

proof fn lemma_first_refused_unique(list: Seq<ComponentValue>, assets: Map<Seq<char>, UploadedAsset>, i: int)
    requires
        first_refused(list, assets, i),
    ensures
        (choose|k: int| first_refused(list, assets, k)) == i,
{
    let k = choose|k: int| first_refused(list, assets, k);
    assert(first_refused(list, assets, k));
    if k < i {
        assert(component_accepted(list[k], assets));
    } else if k > i {
        assert(component_accepted(list[i], assets));
    }
}

/// Turns component descriptions into drawers, stopping at the first one that
/// is refused.
pub fn make_component_drawers(from_components: ComponentList, upload_manager: &UploadManager, canvas_size: (u32, u32)) -> (res:
    Result<Vec<MovableComponentDrawer>, DrawerCreationError>)
    requires
        all_drawable(component_values(from_components@), upload_manager.spec_assets()),
    ensures
        res is Ok <==> all_accepted(component_values(from_components@), upload_manager.spec_assets()),
        res matches Ok(d) ==> drawn_components(d@) == component_values(from_components@)
            && forall|i: int| 0 <= i < d@.len() ==> (#[trigger] d@[i]).spec_canvas_size() == canvas_size,
        res matches Err(e) ==> (e matches DrawerCreationError::BadComponentSpec(m) && m@ == list_refusal_msg(
            component_values(from_components@),
            upload_manager.spec_assets(),
        )),
{
    let ghost list = component_values(from_components@);
    let ghost assets = upload_manager.spec_assets();
    let mut rest = from_components;
    let n = rest.len();
    let mut drawers: Vec<MovableComponentDrawer> = Vec::new();
    let mut i: usize = 0;
    while i < n
        invariant
            n == list.len(),
            list == component_values(from_components@),
            i <= n,
            assets == upload_manager.spec_assets(),
            all_drawable(list, assets),
            rest@.len() == n - i,
            forall|j: int| 0 <= j < n - i ==> (#[trigger] rest@[j])@ == list[i + j],
            drawn_components(drawers@) == list.take(i as int),
            forall|j: int| 0 <= j < drawers@.len() ==> (#[trigger] drawers@[j]).spec_canvas_size() == canvas_size,
            forall|j: int| 0 <= j < i ==> component_accepted(#[trigger] list[j], assets),
        decreases n - i,
    {
        let comp = rest.remove(0);
        let ghost cv = comp@;
        assert(cv == list[i as int]);
        assert(component_drawable(list[i as int], assets));
        match MovableComponentDrawer::from_component(comp, upload_manager, canvas_size) {
            Ok(d) => {
                let ghost prev = drawers@;
                drawers.push(d);
                assert(drawn_components(drawers@) =~= drawn_components(prev).push(d.spec_component()));
                assert(list.take(i + 1) == list.take(i as int).push(list[i as int]));
            },
            Err(e) => {
                proof {
                    assert(!component_accepted(cv, assets));
                    assert(first_refused(list, assets, i as int));
                    lemma_first_refused_unique(list, assets, i as int);
                    assert(!all_accepted(list, assets));
                    assert(list_refusal_msg(list, assets) == refusal_msg(cv, assets));
                }
                return Err(e);
            },
        }
        i = i + 1;
    }
    assert(list.take(n as int) == list);
    Ok(drawers)
}

/// Keyframe positions that pass validation are accepted by the gradient builder.
proof fn lemma_accepted_keys_make_gradients(keys: Seq<u8>)
    requires
        keyframes_accepted(keys),
    ensures
        gradient_domain_accepted(keys),
{
    assert forall|i: int| 0 < i < keys.len() implies keys[i - 1] <= #[trigger] keys[i] by {
        assert(keys[i - 1] < keys[i]);
    }
}

/// Whether a colour spec can be drawn: an animated one needs a loop of at
/// least two frames whose gradient starts on the first keyframe colour and ends on the last.
pub fn color_spec_is_drawable(c: &ColorSpec) -> (b: bool)
    ensures
        b == color_spec_drawable(c@),
{
    match c {
        ColorSpec::Static(_) => true,
        ColorSpec::Animated(a) => {
            let d = a.duration();
            if d < 2 {
                return false;
            }
            let keyframes = a.keyframes();
            proof {
                lemma_accepted_keys_make_gradients(keyframe_keys(keyframes@));
            }
            mk_gradient(keyframes, d).is_ok()
        },
    }
}

/// Whether a component can be turned into a drawer without failing.
pub fn component_is_drawable(c: &Component, upload_manager: &UploadManager) -> (b: bool)
    ensures
        b == component_drawable(c@, upload_manager.spec_assets()),
{
    match c {
        Component::Image(i) => match upload_manager.retrieve(i.source.as_str()) {
            Some(a) => match &*a {
                UploadedAsset::AnimatedImage(b) => b.get_frames().len() > 0,
                UploadedAsset::Image(_) => true,
            },
            None => true,
        },
        Component::Text(t) => color_spec_is_drawable(&t.color),
        Component::Line(l) => color_spec_is_drawable(&l.color),
        Component::Rectangle(r) => {
            color_spec_is_drawable(&r.border_color) && match &r.fill_color {
                Some(f) => color_spec_is_drawable(f),
                None => true,
            }
        },
    }
}

/// Whether every component of a list can be turned into a drawer without failing.
pub fn components_are_drawable(list: &ComponentList, upload_manager: &UploadManager) -> (b: bool)
    ensures
        b == all_drawable(component_values(list@), upload_manager.spec_assets()),
{
    let ghost vals = component_values(list@);
    let mut i: usize = 0;
    while i < list.len()
        invariant
            vals == component_values(list@),
            i <= list@.len(),
            forall|j: int| 0 <= j < i ==> component_drawable(#[trigger] vals[j], upload_manager.spec_assets()),
        decreases list@.len() - i,
    {
        if !component_is_drawable(&list[i], upload_manager) {
            assert(!component_drawable(vals[i as int], upload_manager.spec_assets()));
            return false;
        }
        i = i + 1;
    }
    true
}

/// The renderer's state apart from the display: whether it is rendering, and
/// the drawers of the components shown.
pub struct RendererCore {
    state: State,
    components: Vec<MovableComponentDrawer>,
    canvas_size: (u32, u32),
}

impl RendererCore {
    /// Whether the display is being refreshed.
    pub closed spec fn spec_state(&self) -> State {
        self.state
    }

    /// The components drawn, in drawing order.
    pub closed spec fn spec_components(&self) -> Seq<ComponentValue> {
        drawn_components(self.components@)
    }

    /// The drawers, in drawing order.
    pub closed spec fn spec_drawers(&self) -> Seq<MovableComponentDrawer> {
        self.components@
    }

    /// The canvas size components are drawn for.
    pub closed spec fn spec_canvas_size(&self) -> (u32, u32) {
        self.canvas_size
    }

    /// A stopped renderer with nothing to draw.
    pub fn new(canvas_size: (u32, u32)) -> (r: Self)
        ensures
            r.spec_state() == State::Stopped,
            r.spec_components() == Seq::<ComponentValue>::empty(),
            r.spec_canvas_size() == canvas_size,
    {
        let r = Self { state: State::Stopped, components: Vec::new(), canvas_size };
        assert(r.spec_components() =~= Seq::<ComponentValue>::empty());
        r
    }

    /// Whether the display is being refreshed.
    pub fn state(&self) -> (s: State)
        ensures
            s == self.spec_state(),
    {
        self.state
    }

    /// Handles one command; the caller performs the display action and sends
    /// the answer.
    pub fn handle_command(&mut self, command: Command, upload_manager: &UploadManager) -> (r: (Reply, DisplayAction))
        requires
            command_value(command) matches CommandValue::SetComponents(list) ==> all_drawable(list, upload_manager.spec_assets()),
        ensures
            (final(self).spec_state(), final(self).spec_components(), reply_value(r.0), r.1) == transition(
                old(self).spec_state(),
                old(self).spec_components(),
                command_value(command),
                upload_manager.spec_assets(),
            ),
            final(self).spec_canvas_size() == old(self).spec_canvas_size(),
    {
        match command {
            Command::Start => {
                let action = match self.state {
                    State::Stopped => DisplayAction::StartDisplay,
                    State::Rendering => DisplayAction::Keep,
                };
                self.state = State::Rendering;
                (Reply::Done(true), action)
            },
            Command::Stop => {
                let action = match self.state {
                    State::Stopped => DisplayAction::Keep,
                    State::Rendering => DisplayAction::StopDisplay,
                };
                self.state = State::Stopped;
                (Reply::Done(true), action)
            },
            Command::GetComponents => (Reply::Components(Self::get_components(&self.components)), DisplayAction::Keep),
            Command::SetComponents { components } => {
                let result = Self::set_components(&mut self.components, components, upload_manager, self.canvas_size);
                (Reply::SetResult(result), DisplayAction::Keep)
            },
        }
    }

    /// Handles one command, first refusing a list of components that cannot
    /// be drawn (a colour animation shorter than two frames or whose gradient
    /// does not start and end on its end keyframe colours, or an animated image
    /// with no frames): such a list is answered as bad input, with
    /// [`undrawable_msg`], and changes nothing. Every other command is handled
    /// as [`RendererCore::handle_command`] does.
    pub fn handle_command_checked(&mut self, command: Command, upload_manager: &UploadManager) -> (r: (
        Reply,
        DisplayAction,
    ))
        ensures
            (command_value(command) matches CommandValue::SetComponents(list) && !all_drawable(
                list,
                upload_manager.spec_assets(),
            )) ==> {
                &&& final(self).spec_state() == old(self).spec_state()
                &&& final(self).spec_components() == old(self).spec_components()
                &&& reply_value(r.0) == ReplyValue::SetRefused(undrawable_msg())
                &&& r.1 == DisplayAction::Keep
            },
            (command_value(command) matches CommandValue::SetComponents(list) ==> all_drawable(
                list,
                upload_manager.spec_assets(),
            )) ==> (final(self).spec_state(), final(self).spec_components(), reply_value(r.0), r.1)
                == transition(
                old(self).spec_state(),
                old(self).spec_components(),
                command_value(command),
                upload_manager.spec_assets(),
            ),
            final(self).spec_canvas_size() == old(self).spec_canvas_size(),
    {
        if let Command::SetComponents { components } = &command {
            if !components_are_drawable(components, upload_manager) {
                let msg = "Component cannot be drawn".to_owned();
                proof {
                    reveal_strlit("Component cannot be drawn");
                }
                return (Reply::SetResult(Err(CommandError::UserInputError(msg))), DisplayAction::Keep);
            }
        }
        self.handle_command(command, upload_manager)
    }

    /// Replaces the drawers with those of the new components, or leaves them
    /// unchanged when a component is refused.
    fn set_components(
        to_update: &mut Vec<MovableComponentDrawer>,
        new_components: ComponentList,
        upload_manager: &UploadManager,
        canvas_size: (u32, u32),
    ) -> (r: Result<(), CommandError>)
        requires
            all_drawable(component_values(new_components@), upload_manager.spec_assets()),
        ensures
            r is Ok <==> all_accepted(component_values(new_components@), upload_manager.spec_assets()),
            r is Ok ==> drawn_components(final(to_update)@) == component_values(new_components@),
            r is Err ==> final(to_update)@ == old(to_update)@,
            r matches Err(e) ==> (e matches CommandError::UserInputError(m) && m@ == list_refusal_msg(
                component_values(new_components@),
                upload_manager.spec_assets(),
            )),
    {
        match make_component_drawers(new_components, upload_manager, canvas_size) {
            Ok(drawers) => {
                *to_update = drawers;
                Ok(())
            },
            Err(e) => Err(CommandError::from(e)),
        }
    }

    /// Copies of the components drawn.
    fn get_components(component_drawers: &Vec<MovableComponentDrawer>) -> (list: ComponentList)
        ensures
            component_values(list@) == drawn_components(component_drawers@),
    {
        let mut list: ComponentList = Vec::new();
        let mut i: usize = 0;
        while i < component_drawers.len()
            invariant
                i <= component_drawers@.len(),
                component_values(list@) == drawn_components(component_drawers@).take(i as int),
            decreases component_drawers@.len() - i,
        {
            let c = component_drawers[i].get_cloned_component();
            let ghost prev = list@;
            list.push(c);
            assert(component_values(list@) =~= component_values(prev).push(c@));
            assert(drawn_components(component_drawers@).take(i + 1) == drawn_components(component_drawers@).take(i as int).push(component_drawers@[i as int].spec_component()));
            i = i + 1;
        }
        assert(drawn_components(component_drawers@).take(component_drawers@.len() as int) == drawn_components(component_drawers@));
        list
    }

    /// The drawers, in drawing order, for the caller to draw.
    pub fn drawers(&self) -> (d: &Vec<MovableComponentDrawer>)
        ensures
            d@ == self.spec_drawers(),
    {
        &self.components
    }

    /// Moves every drawer on by one frame; the components drawn stay the same.
    pub fn advance_frame(&mut self)
        ensures
            final(self).spec_drawers().len() == old(self).spec_drawers().len(),
            forall|i: int|
                0 <= i < old(self).spec_drawers().len() ==> MovableComponentDrawer::spec_advanced(
                    #[trigger] old(self).spec_drawers()[i],
                    final(self).spec_drawers()[i],
                ),
            final(self).spec_components() == old(self).spec_components(),
            final(self).spec_state() == old(self).spec_state(),
            final(self).spec_canvas_size() == old(self).spec_canvas_size(),
    {
        let mut drawers: Vec<MovableComponentDrawer> = Vec::new();
        std::mem::swap(&mut drawers, &mut self.components);
        let ghost before = drawers@;
        let mut done: Vec<MovableComponentDrawer> = Vec::new();
        let n = drawers.len();
        let mut i: usize = 0;
        while i < n
            invariant
                n == before.len(),
                i <= n,
                drawers@.len() == n - i,
                forall|j: int| 0 <= j < n - i ==> #[trigger] drawers@[j] == before[i + j],
                drawn_components(done@) == drawn_components(before).take(i as int),
                done@.len() == i,
                forall|j: int| 0 <= j < i ==> MovableComponentDrawer::spec_advanced(
                    #[trigger] before[j],
                    done@[j],
                ),
            decreases n - i,
        {
            let mut d = drawers.remove(0);
            assert(d == before[i as int]);
            d.advance_frame();
            let ghost prev = done@;
            done.push(d);
            assert(done@[i as int] == d);
            assert(drawn_components(done@) =~= drawn_components(prev).push(d.spec_component()));
            assert(drawn_components(before).take(i + 1) == drawn_components(before).take(i as int).push(before[i as int].spec_component()));
            i = i + 1;
        }
        assert(drawn_components(before).take(n as int) == drawn_components(before));
        self.components = done;
    }
}

} // verus!
