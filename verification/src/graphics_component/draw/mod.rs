//! Per-frame drawing state of components.
//!
//! Each component becomes a drawer that keeps the state it is drawn with; a
//! scrolling component may be drawn at several places in one frame, which is
//! tracked apart from the drawer that knows how to draw it once.

use vstd::prelude::*;

use crate::graphics_component::{motion_of, Component, ComponentValue, MotionConfig};
use crate::upload::UploadManager;

pub mod color_state;
pub mod component_drawer;
pub mod movement;

use component_drawer::{
    component_drawable, component_spec_static, drawer_advanced, drawer_built_from, drawer_component,
    drawer_frames, lemma_drawer_frames, drawer_static, missing_image_msg, ComponentDrawer,
};
use movement::{check_motion, motion_supported, unsupported_motion_msg};

verus! {

/// Why a component could not be turned into a drawer.
#[derive(Debug)]
pub enum DrawerCreationError {
    BadComponentSpec(String),
    _GeneralError(String),
}


/// A drawer together with the scrolling it is drawn with, if any.
pub struct MovableComponentDrawer {
    drawer: ComponentDrawer,
    motion: Option<MotionConfig>,
    canvas_size: (u32, u32),
}

impl MovableComponentDrawer {
    /// The component drawn.
    pub closed spec fn spec_component(&self) -> ComponentValue {
        drawer_component(self.drawer)
    }

    /// The drawer.
    pub closed spec fn spec_drawer(&self) -> ComponentDrawer {
        self.drawer
    }

    /// The scrolling configuration, if the component scrolls.
    pub closed spec fn spec_motion(&self) -> Option<MotionConfig> {
        self.motion
    }

    /// The size of the canvas drawn on.
    pub closed spec fn spec_canvas_size(&self) -> (u32, u32) {
        self.canvas_size
    }

    /// The drawer of a component on a canvas of the given size. Refused when an
    /// image component's file is not stored, or when a scrolling component
    /// moves further per frame than the distance at which it repeats, or
    /// repeats at no distance.
    pub fn from_component(comp: Component, upload_manager: &UploadManager, canvas_size: (u32, u32)) -> (res:
        Result<Self, DrawerCreationError>)
        requires
            component_drawable(comp@, upload_manager.spec_assets()),
        ensures
            res is Ok <==> (comp@ matches ComponentValue::Image(i) ==> upload_manager.spec_assets().contains_key(i.source))
                && (motion_of(comp@) matches Some(m) ==> motion_supported(m)),
            res matches Ok(d) ==> d.spec_component() == comp@ && d.spec_motion() == motion_of(comp@)
                && d.spec_canvas_size() == canvas_size,
            res matches Ok(d) ==> drawer_built_from(comp@, d.spec_drawer(), upload_manager.spec_assets()),
            res matches Ok(d) ==> (drawer_static(d.spec_drawer()) <==> component_spec_static(
                comp@,
                upload_manager.spec_assets(),
            )),
            res matches Err(e) ==> (e matches DrawerCreationError::BadComponentSpec(m) && ((
            comp@ matches ComponentValue::Image(i) && !upload_manager.spec_assets().contains_key(i.source))
                ==> m@ == missing_image_msg()) && ((comp@ matches ComponentValue::Image(i)
                ==> upload_manager.spec_assets().contains_key(i.source)) ==> (motion_of(comp@) matches Some(mc)
                && m@ == unsupported_motion_msg(mc.distance_per_tick, mc.periodicity)))),
    {
        let opt_motion_config = match comp.get_motion_config() {
            Some(m) => Some(*m),
            None => None,
        };
        let drawer = ComponentDrawer::from_component(comp, upload_manager)?;
        if let Some(m) = opt_motion_config {
            if let Err(e) = check_motion(m.distance_per_tick, m.periodicity) {
                return Err(DrawerCreationError::BadComponentSpec(e));
            }
        }
        Ok(Self { drawer, motion: opt_motion_config, canvas_size })
    }

    /// Whether the component looks the same on every frame: it does not scroll
    /// and nothing about it is animated.
    pub fn is_static(&self) -> (b: bool)
        ensures
            b == (self.spec_motion() is None && drawer_static(self.spec_drawer())),
    {
        self.motion.is_none() && self.drawer.is_static()
    }

    /// `b` is the drawer `a` one frame later: its drawing state moved on by
    /// one frame, with the same scrolling and canvas.
    pub open spec fn spec_advanced(a: Self, b: Self) -> bool {
        &&& drawer_advanced(a.spec_drawer(), b.spec_drawer())
        &&& b.spec_motion() == a.spec_motion()
        &&& b.spec_canvas_size() == a.spec_canvas_size()
    }

    /// Moves the drawing state on by one frame.
    pub fn advance_frame(&mut self)
        ensures
            Self::spec_advanced(*old(self), *final(self)),
            final(self).spec_component() == old(self).spec_component(),
            final(self).spec_motion() == old(self).spec_motion(),
            final(self).spec_canvas_size() == old(self).spec_canvas_size(),
            drawer_static(final(self).spec_drawer()) == drawer_static(old(self).spec_drawer()),
    {
        self.drawer.advance_frame();
    }

    /// A copy of the component drawn.
    pub fn get_cloned_component(&self) -> (c: Component)
        ensures
            c@ == self.spec_component(),
    {
        self.drawer.get_cloned_component()
    }

    /// The drawer.
    pub fn drawer(&self) -> (d: &ComponentDrawer)
        ensures
            *d == self.spec_drawer(),
    {
        &self.drawer
    }

    /// The scrolling configuration, if the component scrolls.
    pub fn motion_config(&self) -> (m: Option<MotionConfig>)
        ensures
            m == self.spec_motion(),
    {
        self.motion
    }

    /// The size of the canvas drawn on.
    pub fn canvas_size(&self) -> (s: (u32, u32))
        ensures
            s == self.spec_canvas_size(),
    {
        self.canvas_size
    }
}

/// Frame after frame, a drawer keeps the component it draws (so a copy of it
/// gives back the component it was made from), its scrolling, its canvas and
/// whether it is static.
pub proof fn lemma_frames_keep_component(ds: Seq<MovableComponentDrawer>, k: int)
    requires
        forall|i: int| 0 <= i < ds.len() - 1 ==> MovableComponentDrawer::spec_advanced(#[trigger] ds[i], ds[i + 1]),
        0 <= k < ds.len(),
    ensures
        ds[k].spec_component() == ds[0].spec_component(),
        ds[k].spec_motion() == ds[0].spec_motion(),
        ds[k].spec_canvas_size() == ds[0].spec_canvas_size(),
        drawer_static(ds[k].spec_drawer()) == drawer_static(ds[0].spec_drawer()),
    decreases k,
{
    if k > 0 {
        lemma_frames_keep_component(ds, k - 1);
        assert(MovableComponentDrawer::spec_advanced(ds[k - 1], ds[k]));
        let inner = seq![ds[k - 1].spec_drawer(), ds[k].spec_drawer()];
        assert(drawer_frames(inner));
        lemma_drawer_frames(inner, 1);
    }
}

} // verus!
