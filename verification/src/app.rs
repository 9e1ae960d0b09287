//! The view state, the reducer that events drive, and the render pass.

use crate::compose::{apply_mask, masked, overlaid, overlay, MaskSpec};
use crate::config::{
    Config, DEFAULT_BORDER_THICKNESS, DEFAULT_HEIGHT, DEFAULT_WIDTH, DEFAULT_ZOOM_AREA,
};
use crate::frame::{Frame, FrameView, Rgba};
use crate::shot::Area;
use crate::transform::{
    can_extract, crop, cropped, extract_and_scale, extract_fits, extracts,
    lemma_same_size_is_identity, Filter,
};
use crate::utils::{color_of, str_to_color};
use vstd::prelude::*;
use vstd::string::StringSliceAdditionalSpecFns;

verus! {

/// An event from the window.
#[derive(Clone, Copy, Debug, PartialEq, Eq)]
pub enum MainMessage {
    /// The pointer moved to this point.
    Move(i32, i32),
    /// The window now has this size.
    Resize((u32, u32)),
    /// The wheel turned towards the user.
    ZoomIn,
    /// The wheel turned away from the user.
    ZoomOut,
    /// The modifier key went down (`true`) or up.
    AltKey(bool),
}

/// What the window is asked to do after an event.
#[derive(Clone, Copy, Debug, PartialEq, Eq, Structural)]
pub enum Command {
    /// Nothing is asked.
    Nothing,
    /// Grow the window's minimum size to this width and height.
    Resize(i32, i32),
}

/// The lowest zoom delta.
pub const ZOOM_MIN: i32 = -20;

/// The highest zoom delta.
pub const ZOOM_MAX: i32 = 20;

/// The state that the events drive.
#[derive(Clone, Copy, Debug, PartialEq, Eq)]
pub struct ViewState {
    /// Where the pointer is.
    pub pointer: (i32, i32),
    /// What the wheel has added to the side of the magnified square.
    pub zoom_delta: i32,
    /// What the wheel, with the modifier held, has added to the patch's size.
    pub area_scale_delta: i32,
    /// The patch's size before any such addition.
    pub base_area_size: (u32, u32),
    /// Whether the modifier key is held.
    pub modifier_held: bool,
}

impl ViewState {
    /// The zoom delta is within its bounds, and the patch's size, the base
    /// size plus the delta, is a `u32` in both directions.
    pub open spec fn wf(self) -> bool {
        &&& ZOOM_MIN <= self.zoom_delta <= ZOOM_MAX
        &&& 0 <= self.base_area_size.0 + self.area_scale_delta <= u32::MAX
        &&& 0 <= self.base_area_size.1 + self.area_scale_delta <= u32::MAX
    }

    /// The patch's size: the base size plus the delta, in both directions.
    pub open spec fn spec_effective_area_size(self) -> (u32, u32) {
        (
            (self.base_area_size.0 + self.area_scale_delta) as u32,
            (self.base_area_size.1 + self.area_scale_delta) as u32,
        )
    }

    /// Whether the patch is at least one pixel wide and high.
    pub open spec fn area_positive(self) -> bool {
        self.base_area_size.0 + self.area_scale_delta >= 1 && self.base_area_size.1
            + self.area_scale_delta >= 1
    }

    /// The state at startup: no zoom, no addition to the patch, the
    /// modifier up.
    pub open spec fn spec_initial(pointer: (i32, i32), base_area_size: (u32, u32)) -> ViewState {
        ViewState {
            pointer,
            zoom_delta: 0,
            area_scale_delta: 0,
            base_area_size,
            modifier_held: false,
        }
    }

    /// Whether the patch may grow by `by`: the new delta is an `i32`, and the
    /// new size is at least one pixel and at most `i32::MAX` both ways, so
    /// that a `Command::Resize` can carry it.
    pub open spec fn may_scale_area(self, by: int) -> bool {
        let d = self.area_scale_delta + by;
        &&& i32::MIN <= d <= i32::MAX
        &&& 1 <= self.base_area_size.0 + d <= i32::MAX
        &&& 1 <= self.base_area_size.1 + d <= i32::MAX
    }

    /// The wheel with the modifier held: the patch grows by `by` and the
    /// window is asked to follow, or nothing happens where it may not grow.
    pub open spec fn scale_area(self, by: int) -> (ViewState, Command) {
        if self.may_scale_area(by) {
            let d = self.area_scale_delta + by;
            (
                ViewState { area_scale_delta: d as i32, ..self },
                Command::Resize(
                    (self.base_area_size.0 + d) as i32,
                    (self.base_area_size.1 + d) as i32,
                ),
            )
        } else {
            (self, Command::Nothing)
        }
    }

    /// The wheel without the modifier: the zoom delta moves by `by`, held
    /// within its bounds.
    pub open spec fn zoom(self, by: int) -> ViewState {
        let z = self.zoom_delta + by;
        ViewState {
            zoom_delta: if z < ZOOM_MIN {
                ZOOM_MIN
            } else if z > ZOOM_MAX {
                ZOOM_MAX
            } else {
                z as i32
            },
            ..self
        }
    }

    /// The state after one event, and what the window is asked to do.
    pub open spec fn spec_step(self, msg: MainMessage) -> (ViewState, Command) {
        match msg {
            MainMessage::Move(x, y) => (ViewState { pointer: (x, y), ..self }, Command::Nothing),
            MainMessage::Resize(_) => (self, Command::Nothing),
            MainMessage::AltKey(pressed) => (
                ViewState { modifier_held: pressed, ..self },
                Command::Nothing,
            ),
            MainMessage::ZoomIn => if self.modifier_held {
                self.scale_area(1)
            } else {
                (self.zoom(1), Command::Nothing)
            },
            MainMessage::ZoomOut => if self.modifier_held {
                self.scale_area(-1)
            } else {
                (self.zoom(-1), Command::Nothing)
            },
        }
    }

    /// The state after a queue of events, taken in the order of arrival.
    pub open spec fn run(self, msgs: Seq<MainMessage>) -> ViewState
        decreases msgs.len(),
    {
        if msgs.len() == 0 {
            self
        } else {
            self.run(msgs.drop_last()).spec_step(msgs.last()).0
        }
    }

    /// The state at startup.
    #[verifier::when_used_as_spec(spec_initial)]
    pub fn initial(pointer: (i32, i32), base_area_size: (u32, u32)) -> (out: ViewState)
        ensures
            out == ViewState::spec_initial(pointer, base_area_size),
            out.wf(),
    {
        ViewState {
            pointer,
            zoom_delta: 0,
            area_scale_delta: 0,
            base_area_size,
            modifier_held: false,
        }
    }

    /// The patch's size.
    #[verifier::when_used_as_spec(spec_effective_area_size)]
    pub fn effective_area_size(self) -> (out: (u32, u32))
        requires
            self.wf(),
        ensures
            out == self.spec_effective_area_size(),
    {
        (
            (self.base_area_size.0 as i64 + self.area_scale_delta as i64) as u32,
            (self.base_area_size.1 as i64 + self.area_scale_delta as i64) as u32,
        )
    }

    /// The patch grown by `by`, which is one step either way.
    fn scaled_area(self, by: i64) -> (out: (ViewState, Command))
        requires
            self.wf(),
            by == 1 || by == -1,
        ensures
            out == self.scale_area(by as int),
    {
        let d: i64 = self.area_scale_delta as i64 + by;
        let w: i64 = self.base_area_size.0 as i64 + d;
        let h: i64 = self.base_area_size.1 as i64 + d;
        if i32::MIN as i64 <= d && d <= i32::MAX as i64 && 1 <= w && w <= i32::MAX as i64 && 1 <= h
            && h <= i32::MAX as i64 {
            (ViewState { area_scale_delta: d as i32, ..self }, Command::Resize(w as i32, h as i32))
        } else {
            (self, Command::Nothing)
        }
    }

    /// Applies one event. No event fails: a step that would leave the
    /// bounds does nothing. A well-formed state stays well formed, and a
    /// patch of at least one pixel stays one.
    #[verifier::when_used_as_spec(spec_step)]
    pub fn step(self, msg: MainMessage) -> (out: (ViewState, Command))
        requires
            self.wf(),
        ensures
            out == self.spec_step(msg),
            out.0.wf(),
            self.area_positive() ==> out.0.area_positive(),
    {
        match msg {
            MainMessage::Move(x, y) => (ViewState { pointer: (x, y), ..self }, Command::Nothing),
            MainMessage::Resize(_) => (self, Command::Nothing),
            MainMessage::AltKey(pressed) => (
                ViewState { modifier_held: pressed, ..self },
                Command::Nothing,
            ),
            MainMessage::ZoomIn => {
                if self.modifier_held {
                    self.scaled_area(1)
                } else if self.zoom_delta < ZOOM_MAX {
                    (ViewState { zoom_delta: self.zoom_delta + 1, ..self }, Command::Nothing)
                } else {
                    (self, Command::Nothing)
                }
            },
            MainMessage::ZoomOut => {
                if self.modifier_held {
                    self.scaled_area(-1)
                } else if self.zoom_delta > ZOOM_MIN {
                    (ViewState { zoom_delta: self.zoom_delta - 1, ..self }, Command::Nothing)
                } else {
                    (self, Command::Nothing)
                }
            },
        }
    }
}

/// Whether every event of the queue is a turn of the wheel.
pub open spec fn only_wheel(msgs: Seq<MainMessage>) -> bool {
    forall|i: int|
        0 <= i < msgs.len() ==> (#[trigger] msgs[i]) is ZoomIn || (#[trigger] msgs[i]) is ZoomOut
}

/// Every queue of events leaves a well-formed state well formed: the zoom
/// delta stays within its bounds and the patch's size stays the base size
/// plus the delta. The base size never changes.
pub proof fn lemma_run_wf(s: ViewState, msgs: Seq<MainMessage>)
    requires
        s.wf(),
    ensures
        s.run(msgs).wf(),
        s.run(msgs).base_area_size == s.base_area_size,
    decreases msgs.len(),
{
    if msgs.len() > 0 {
        lemma_run_wf(s, msgs.drop_last());
    }
}

/// The state after the first `k + 1` events of a queue is the state after
/// the first `k`, stepped by event `k`.
pub proof fn lemma_run_prefix(s: ViewState, msgs: Seq<MainMessage>, k: int)
    requires
        0 <= k < msgs.len(),
    ensures
        s.run(msgs.take(k + 1)) == s.run(msgs.take(k)).spec_step(msgs[k]).0,
{
    assert(msgs.take(k + 1).drop_last() =~= msgs.take(k));
    assert(msgs.take(k + 1).last() == msgs[k]);
}

/// While the modifier is up, turns of the wheel keep the zoom delta within
/// its bounds and change nothing else. Each turn moves the delta by one in
/// its own direction, or leaves it where it stands at the bound: a turn
/// towards the user never lowers it, a turn away never raises it.
pub proof fn lemma_zoom_bounded_and_monotonic(s: ViewState, msgs: Seq<MainMessage>)
    requires
        s.wf(),
        !s.modifier_held,
        only_wheel(msgs),
    ensures
        ZOOM_MIN <= s.run(msgs).zoom_delta <= ZOOM_MAX,
        s.run(msgs) == (ViewState { zoom_delta: s.run(msgs).zoom_delta, ..s }),
        forall|k: int|
            0 <= k < msgs.len() ==> {
                let before = (#[trigger] s.run(msgs.take(k))).zoom_delta as int;
                let after = s.run(msgs.take(k + 1)).zoom_delta as int;
                &&& msgs[k] is ZoomIn ==> after == (if before < ZOOM_MAX {
                    before + 1
                } else {
                    before
                })
                &&& msgs[k] is ZoomOut ==> after == (if before > ZOOM_MIN {
                    before - 1
                } else {
                    before
                })
            },
    decreases msgs.len(),
{
    if msgs.len() > 0 {
        let front = msgs.drop_last();
        lemma_zoom_bounded_and_monotonic(s, front);
        lemma_run_wf(s, front);
        assert(msgs.last() == msgs[msgs.len() - 1]);
        assert forall|k: int| 0 <= k < msgs.len() implies {
            let before = (#[trigger] s.run(msgs.take(k))).zoom_delta as int;
            let after = s.run(msgs.take(k + 1)).zoom_delta as int;
            &&& msgs[k] is ZoomIn ==> after == (if before < ZOOM_MAX {
                before + 1
            } else {
                before
            })
            &&& msgs[k] is ZoomOut ==> after == (if before > ZOOM_MIN {
                before - 1
            } else {
                before
            })
        } by {
            lemma_run_prefix(s, msgs, k);
            if k < msgs.len() - 1 {
                assert(msgs.take(k) =~= front.take(k));
                assert(msgs.take(k + 1) =~= front.take(k + 1));
                assert(front[k] == msgs[k]);
            } else {
                assert(msgs.take(k) =~= front);
                lemma_run_wf(s, front);
            }
        }
    }
}

/// A patch of at least one pixel stays one whatever events arrive, and its
/// size stays the base size plus the delta.
pub proof fn lemma_area_stays_positive(s: ViewState, msgs: Seq<MainMessage>)
    requires
        s.wf(),
        s.area_positive(),
    ensures
        s.run(msgs).wf(),
        s.run(msgs).area_positive(),
        s.run(msgs).spec_effective_area_size().0 == s.base_area_size.0 + s.run(
            msgs,
        ).area_scale_delta,
        s.run(msgs).spec_effective_area_size().1 == s.base_area_size.1 + s.run(
            msgs,
        ).area_scale_delta,
        s.run(msgs).spec_effective_area_size().0 >= 1,
        s.run(msgs).spec_effective_area_size().1 >= 1,
    decreases msgs.len(),
{
    lemma_run_wf(s, msgs);
    if msgs.len() > 0 {
        lemma_area_stays_positive(s, msgs.drop_last());
        lemma_run_wf(s, msgs.drop_last());
    }
}

/// With the modifier held, a turn of the wheel that would bring the patch
/// below one pixel changes nothing and asks nothing of the window.
pub proof fn lemma_shrink_below_one_is_noop(s: ViewState)
    requires
        s.wf(),
        s.modifier_held,
        s.base_area_size.0 + s.area_scale_delta <= 1 || s.base_area_size.1 + s.area_scale_delta
            <= 1,
    ensures
        s.spec_step(MainMessage::ZoomOut) == (s, Command::Nothing),
{
}

/// The magnifier: the view state, the settings it was started with, the
/// captured screen and the part of it that the window shows.
pub struct MainApp {
    state: ViewState,
    config: Config,
    border_color: Option<Rgba>,
    img_origin: Frame,
    img: Frame,
}

/// What the magnifier is: its state, the settings that a render reads, the
/// captured screen and the part of it that the window shows.
pub struct MainAppView {
    pub state: ViewState,
    pub circle: bool,
    pub zoom_area: u32,
    pub border_thickness: u32,
    pub border_color: Option<Rgba>,
    pub screen: FrameView,
    pub visible: FrameView,
}

/// The colour that the setting denotes, if it is set and denotes one.
pub open spec fn border_color_of(setting: Option<String>) -> Option<Rgba> {
    match setting {
        Some(s) => color_of(vstd::utf8::encode_utf8(s@)),
        None => None,
    }
}

/// The value of a setting, or `default` where it is not set.
pub open spec fn setting_or(setting: Option<u32>, default: u32) -> u32 {
    match setting {
        Some(v) => v,
        None => default,
    }
}

impl MainAppView {
    /// The magnifier at startup: the patch has the size that the settings
    /// give, 400 by 200 where they give none, the magnified square has a side
    /// of 50 where they give none, and the border is 5 pixels thick where
    /// they give no thickness. The window shows the whole capture.
    pub open spec fn startup(config: Config, pointer: (i32, i32), img: FrameView) -> MainAppView {
        MainAppView {
            state: ViewState::spec_initial(
                pointer,
                (
                    setting_or(config.width, DEFAULT_WIDTH),
                    setting_or(config.height, DEFAULT_HEIGHT),
                ),
            ),
            circle: config.circle,
            zoom_area: setting_or(config.zoom_area, DEFAULT_ZOOM_AREA),
            border_thickness: setting_or(config.border_thickness, DEFAULT_BORDER_THICKNESS),
            border_color: border_color_of(config.border_color),
            screen: img,
            visible: img,
        }
    }

    /// The part of the screen that a window of the given size shows: from the
    /// top-left corner, as much as the screen holds.
    pub open spec fn shown(self, size: (u32, u32)) -> FrameView {
        cropped(
            self.screen,
            (Area { x: 0, y: 0, width: size.0, height: size.1 }).spec_clamp_to(
                self.screen.width as u32,
                self.screen.height as u32,
            ),
        )
    }

    /// The magnifier after one event, and what the window is asked to do. A
    /// resize changes what the window shows and leaves the state alone; every
    /// other event changes the state alone.
    pub open spec fn updated(self, msg: MainMessage) -> (MainAppView, Command) {
        let (state, command) = self.state.spec_step(msg);
        (
            MainAppView {
                state,
                visible: match msg {
                    MainMessage::Resize(size) => self.shown(size),
                    _ => self.visible,
                },
                ..self
            },
            command,
        )
    }

    /// The magnifier after a queue of events, taken in the order of arrival.
    pub open spec fn drained(self, msgs: Seq<MainMessage>) -> MainAppView
        decreases msgs.len(),
    {
        if msgs.len() == 0 {
            self
        } else {
            self.drained(msgs.drop_last()).updated(msgs.last()).0
        }
    }

    /// What the window is asked to do by each event of a queue, in the order
    /// of arrival.
    pub open spec fn commands(self, msgs: Seq<MainMessage>) -> Seq<Command> {
        Seq::new(msgs.len(), |i: int| self.drained(msgs.take(i)).updated(msgs[i]).1)
    }

    /// The size of the zoomed patch: the patch's size, made square by its
    /// smaller side where the patch is a circle.
    pub open spec fn patch_size(self) -> (u32, u32) {
        let (w, h) = self.state.spec_effective_area_size();
        if self.circle {
            if w <= h {
                (w, w)
            } else {
                (h, h)
            }
        } else {
            (w, h)
        }
    }

    /// The side of the square of the screen that is magnified.
    pub open spec fn zoom_range(self) -> int {
        self.zoom_area + self.state.zoom_delta
    }

    /// The square of the screen that is magnified, centred on the pointer.
    pub open spec fn region(self) -> Area {
        let side = if self.zoom_range() > u32::MAX {
            u32::MAX
        } else {
            self.zoom_range() as u32
        };
        Area::spec_around(self.state.pointer, side, side)
    }

    /// The mask that the settings ask for.
    pub open spec fn mask(self) -> MaskSpec {
        if self.circle {
            MaskSpec::Circle { thickness: self.border_thickness, color: self.border_color }
        } else {
            MaskSpec::Border { thickness: self.border_thickness, color: self.border_color }
        }
    }

    /// Whether a render pass yields a frame: the magnified square has a side
    /// of at least one pixel, it meets the shown screen in at least one
    /// pixel, and the rescale can be carried out.
    pub open spec fn can_render(self) -> bool {
        &&& self.zoom_range() >= 1
        &&& extract_fits(self.visible, self.region(), self.patch_size())
        &&& !self.region().spec_clamp_to(
            self.visible.width as u32,
            self.visible.height as u32,
        ).empty()
    }

    /// The shown screen with a patch laid over it: the patch is masked as
    /// the settings ask, and its corner stands half of `width` to the left of
    /// the pointer and half of `height` above it.
    pub open spec fn placed(self, patch: FrameView, width: nat, height: nat) -> FrameView {
        overlaid(
            self.visible,
            masked(patch, self.mask()),
            self.state.pointer.0 - (width as int) / 2,
            self.state.pointer.1 - (height as int) / 2,
        )
    }

    /// The shown screen with a patch laid over it, masked and centred on the
    /// pointer by the patch's own size.
    pub open spec fn composed(self, patch: FrameView) -> FrameView {
        self.placed(patch, patch.width, patch.height)
    }

    /// Whether `out` is what a render pass yields when the rescale gives
    /// `patch`: `patch` is the magnified square rescaled to the patch's size
    /// with the Gaussian filter, so it is well formed, has that size, and is
    /// the square itself where the square has that size already; and `out`
    /// is the shown screen with `patch`, masked, laid over it so that the
    /// patch's size is centred on the pointer.
    pub open spec fn renders(self, patch: FrameView, out: FrameView) -> bool {
        &&& extracts(self.visible, self.region(), self.patch_size(), Filter::Gaussian, patch)
        &&& out == self.placed(patch, self.patch_size().0 as nat, self.patch_size().1 as nat)
    }

    /// Whether `out` is what a render pass may yield: there is a patch that
    /// the rescale may give with which the pass yields `out`.
    pub open spec fn yields(self, out: FrameView) -> bool {
        exists|patch: FrameView| #[trigger] self.renders(patch, out)
    }
}

impl View for MainApp {
    type V = MainAppView;

    closed spec fn view(&self) -> MainAppView {
        MainAppView {
            state: self.state,
            circle: self.config.circle,
            zoom_area: setting_or(self.config.zoom_area, DEFAULT_ZOOM_AREA),
            border_thickness: setting_or(self.config.border_thickness, DEFAULT_BORDER_THICKNESS),
            border_color: self.border_color,
            screen: self.img_origin@,
            visible: self.img@,
        }
    }
}

impl MainApp {
    #[verifier::type_invariant]
    closed spec fn inv(&self) -> bool {
        self.state.wf()
    }

    /// Starts the magnifier from the settings, the pointer's position and the
    /// captured screen.
    pub fn new(config: Config, pointer: (i32, i32), img: Frame) -> (out: MainApp)
        ensures
            out@ == MainAppView::startup(config, pointer, img@),
            out@.screen.wf(),
            out@.visible.wf(),
    {
        proof {
            img.lemma_view_wf();
        }
        let border_color: Option<Rgba> = match &config.border_color {
            Some(s) => str_to_color(s.as_str()),
            None => None,
        };
        let width: u32 = match config.width {
            Some(v) => v,
            None => DEFAULT_WIDTH,
        };
        let height: u32 = match config.height {
            Some(v) => v,
            None => DEFAULT_HEIGHT,
        };
        MainApp {
            state: ViewState::initial(pointer, (width, height)),
            img_origin: img.clone(),
            img,
            config,
            border_color,
        }
    }

    /// The view state, which is always well formed.
    pub fn state(&self) -> (out: ViewState)
        ensures
            out == self@.state,
            out.wf(),
    {
        proof {
            use_type_invariant(self);
        }
        self.state
    }

    /// The part of the captured screen that the window shows.
    pub fn image(&self) -> (out: &Frame)
        ensures
            out@ == self@.visible,
    {
        &self.img
    }

    /// Applies one event and says what the window is asked to do. No event
    /// fails.
    pub fn update(&mut self, msg: &MainMessage) -> (command: Command)
        ensures
            final(self)@ == old(self)@.updated(*msg).0,
            command == old(self)@.updated(*msg).1,
            final(self)@.screen.wf(),
            final(self)@.visible.wf(),
    {
        proof {
            use_type_invariant(&*self);
            self.img_origin.lemma_view_wf();
            self.img.lemma_view_wf();
        }
        if let MainMessage::Resize(size) = msg {
            self.img = crop(&self.img_origin, Area { x: 0, y: 0, width: size.0, height: size.1 });
        }
        let (state, command) = self.state.step(*msg);
        self.state = state;
        proof {
            self.img.lemma_view_wf();
        }
        command
    }

    /// Applies a queue of events in the order of arrival, one reducer step
    /// for each, and says what each asks of the window.
    pub fn drain(&mut self, msgs: &Vec<MainMessage>) -> (commands: Vec<Command>)
        ensures
            final(self)@ == old(self)@.drained(msgs@),
            commands@ == old(self)@.commands(msgs@),
            final(self)@.screen.wf(),
            final(self)@.visible.wf(),
    {
        proof {
            self.img_origin.lemma_view_wf();
            self.img.lemma_view_wf();
        }
        let mut commands: Vec<Command> = Vec::new();
        let mut i: usize = 0;
        assert(msgs@.take(0) =~= Seq::empty());
        while i < msgs.len()
            invariant
                i <= msgs.len(),
                self@ == old(self)@.drained(msgs@.take(i as int)),
                self@.screen.wf(),
                self@.visible.wf(),
                commands@.len() == i,
                forall|k: int|
                    0 <= k < i ==> #[trigger] commands@[k] == old(self)@.drained(
                        msgs@.take(k),
                    ).updated(msgs@[k]).1,
            decreases msgs.len() - i,
        {
            let command = self.update(&msgs[i]);
            commands.push(command);
            proof {
                assert(msgs@.take(i + 1).drop_last() =~= msgs@.take(i as int));
                assert(msgs@.take(i + 1).last() == msgs@[i as int]);
            }
            i += 1;
        }
        assert(msgs@.take(msgs@.len() as int) =~= msgs@);
        assert(commands@ =~= old(self)@.commands(msgs@));
        commands
    }

    /// Masks a zoomed patch as the settings ask and lays it over the shown
    /// screen, centred on the pointer. What falls outside the screen is
    /// clipped.
    pub fn compose(&self, patch: Frame) -> (out: Frame)
        ensures
            out@ == self@.composed(patch@),
    {
        let (x, y) = self.state.pointer;
        let (width, height) = patch.dimensions();
        let thickness: u32 = match self.config.border_thickness {
            Some(v) => v,
            None => DEFAULT_BORDER_THICKNESS,
        };
        let mask = if self.config.circle {
            MaskSpec::Circle { thickness, color: self.border_color }
        } else {
            MaskSpec::Border { thickness, color: self.border_color }
        };
        let patch = apply_mask(patch, mask);
        let mut img = self.img.clone();
        overlay(&mut img, &patch, x as i64 - (width / 2) as i64, y as i64 - (height / 2) as i64);
        img
    }

    /// One render pass: the shown screen with the zoomed, masked patch laid
    /// over it at the pointer. `None`, and the frame is skipped, exactly when
    /// the magnified square is empty or the rescale cannot be carried out.
    /// The frame has the size of the shown screen. The zoomed patch has the
    /// patch's size; where the magnified square has that size already the
    /// patch is the square, and otherwise its pixels are what the Gaussian
    /// filter gives.
    pub fn render(&self) -> (out: Option<Frame>)
        ensures
            out is Some <==> self@.can_render(),
            out matches Some(f) ==> self@.yields(f@),
            out matches Some(f) ==> f@.width == self@.visible.width && f@.height
                == self@.visible.height,
    {
        proof {
            use_type_invariant(self);
        }
        let (x, y) = self.state.pointer;
        let (w, h) = self.state.effective_area_size();
        let (area_width, area_height) = if self.config.circle {
            let n: u32 = if w <= h {
                w
            } else {
                h
            };
            (n, n)
        } else {
            (w, h)
        };
        let zoom_area: u32 = match self.config.zoom_area {
            Some(v) => v,
            None => DEFAULT_ZOOM_AREA,
        };
        let zoom_range: i64 = zoom_area as i64 + self.state.zoom_delta as i64;
        if zoom_range < 1 {
            return None;
        }
        let side: u32 = if zoom_range > u32::MAX as i64 {
            u32::MAX
        } else {
            zoom_range as u32
        };
        let region = Area::around((x, y), side, side);
        if !can_extract(&self.img, region, (area_width, area_height)) {
            return None;
        }
        let patch = match extract_and_scale(
            &self.img,
            region,
            (area_width, area_height),
            Filter::Gaussian,
        ) {
            Ok(patch) => patch,
            Err(_) => {
                return None;
            },
        };
        let ghost zoomed = patch@;
        let out = self.compose(patch);
        assert(self@.renders(zoomed, out@));
        Some(out)
    }
}

/// Draining a queue steps the view state through the queue, whatever the
/// size of the burst: the state after it is `run` of the state before.
pub proof fn lemma_drained_state(v: MainAppView, msgs: Seq<MainMessage>)
    ensures
        v.drained(msgs).state == v.state.run(msgs),
        v.drained(msgs).screen == v.screen,
    decreases msgs.len(),
{
    if msgs.len() > 0 {
        lemma_drained_state(v, msgs.drop_last());
    }
}

/// Where the magnified square lies within the shown screen and has the
/// patch's size already, a render pass lays the square itself, masked, over
/// the screen: whatever the pass yields is fixed pixel for pixel.
pub proof fn lemma_render_same_size(v: MainAppView, out: FrameView)
    requires
        v.visible.wf(),
        v.region().inside(v.visible.width as int, v.visible.height as int),
        !v.region().empty(),
        v.patch_size() == (v.region().width, v.region().height),
        v.yields(out),
    ensures
        out == v.placed(
            cropped(v.visible, v.region()),
            v.patch_size().0 as nat,
            v.patch_size().1 as nat,
        ),
{
    let patch = choose|patch: FrameView| #[trigger] v.renders(patch, out);
    lemma_same_size_is_identity(v.visible, v.region(), Filter::Gaussian, patch);
}

} // verus!
