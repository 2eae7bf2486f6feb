//! The top-level context: owner of every resource arena, the dedup cache,
//! the shader tracker, the scheduler, the input router and the signal bus,
//! plus the per-concern generation counters.
//!
//! All mutation goes through one `Cx` on one logical main thread; cross-
//! thread producers marshal their notifications through the signal bus
//! and never touch arenas or dirty sets directly.

use vstd::prelude::*;

use crate::arena::Arena;
use crate::dedup::DedupArena;
use crate::input::InputRouter;
use crate::sched::RedrawScheduler;
use crate::sched::begin_post;
use crate::shader::ShaderTracker;
use crate::signal::SignalBus;

verus! {

/// Default time threshold (in milliseconds) under which consecutive
/// presses continue a tap run.
pub const DEFAULT_TAP_TIME_THRESHOLD: u64 = 500;

/// Default distance threshold (in integer device units) under which
/// consecutive presses continue a tap run.
pub const DEFAULT_TAP_DIST_THRESHOLD: u32 = 10;

/// The platform the context runs under.
#[derive(Clone)]
pub enum PlatformType {
    Unknown,
    Windows,
    OSX,
    Linux { custom_window_chrome: bool },
    Web {
        protocol: String,
        hostname: String,
        port: u16,
        pathname: String,
        search: String,
        hash: String,
    },
}

impl PlatformType {
    /// Whether this platform is a desktop target; only a web target is
    /// not.
    pub fn is_desktop(&self) -> (r: bool)
        ensures
            r == !(*self is Web),
    {
        match self {
            PlatformType::Unknown => true,
            PlatformType::Windows => true,
            PlatformType::OSX => true,
            PlatformType::Linux { .. } => true,
            PlatformType::Web { .. } => false,
        }
    }
}

/// A window slot: which render pass fills it.
#[derive(Clone, Copy, PartialEq, Eq, Structural, Debug)]
pub struct CxWindow {
    pub main_pass_id: Option<usize>,
}

/// A render-pass slot: which view tree it draws.
#[derive(Clone, Copy, PartialEq, Eq, Structural, Debug)]
pub struct CxPass {
    pub main_view_id: Option<usize>,
}

/// A font slot: whether the font's data has been loaded and how many
/// atlas pages its glyphs fill.
#[derive(Clone, Copy, PartialEq, Eq, Structural, Debug)]
pub struct CxFont {
    pub loaded: bool,
    pub atlas_pages: u32,
}

/// A view slot: the redraw generation it was last drawn in, compared
/// against the scheduler's counter to detect staleness.
#[derive(Clone, Copy, PartialEq, Eq, Structural, Debug)]
pub struct CxView {
    pub redraw_id: u64,
}

/// Pixel layout of a texture.
#[derive(Clone, Copy, PartialEq, Eq, Structural, Debug)]
pub enum TextureFormat {
    ImageBGRA,
    RenderBGRA,
    Depth32Stencil8,
}

/// What the platform backend needs to allocate a texture.
#[derive(Clone, Copy, PartialEq, Eq, Structural, Debug)]
pub struct TextureDesc {
    pub format: TextureFormat,
    pub width: Option<u32>,
    pub height: Option<u32>,
    pub multisample: Option<u32>,
}

/// A texture slot: its description and the staged image data.
pub struct CxTexture {
    pub desc: TextureDesc,
    pub image_u32: Vec<u32>,
    pub update_image: bool,
}

/// A geometry slot: the fingerprint its content hashes to and the sizes
/// of its vertex and index buffers, which the platform backend fills.
#[derive(Clone, Copy, PartialEq, Eq, Structural, Debug)]
pub struct CxGeometry {
    pub fingerprint: u64,
    pub vertex_count: u32,
    pub index_count: u32,
}

/// The description of the reserved null texture at slot 0: a 4 by 4
/// BGRA image.
pub open spec fn null_texture_desc() -> TextureDesc {
    TextureDesc {
        format: TextureFormat::ImageBGRA,
        width: Some(4u32),
        height: Some(4u32),
        multisample: None,
    }
}

/// The central context.
pub struct Cx {
    pub running: bool,
    pub counter: usize,
    pub platform_type: PlatformType,
    pub windows: Arena<CxWindow>,
    pub passes: Arena<CxPass>,
    pub views: Arena<CxView>,
    pub fonts: Arena<CxFont>,
    pub textures: Arena<CxTexture>,
    pub geometries: DedupArena<CxGeometry>,
    pub shaders: ShaderTracker,
    pub scheduler: RedrawScheduler,
    pub input: InputRouter,
    pub signals: SignalBus,
    pub repaint_id: u64,
    pub event_id: u64,
    pub timer_id: u64,
    pub next_frame_id: u64,
    pub signal_id: u64,
}

impl Cx {
    /// The context invariant: every component is well formed and slot 0
    /// of the texture arena is the reserved null texture.
    pub open spec fn wf(&self) -> bool {
        &&& self.windows.wf()
        &&& self.passes.wf()
        &&& self.views.wf()
        &&& self.fonts.wf()
        &&& self.textures.wf()
        &&& self.textures.reserved() == 1
        &&& self.geometries.wf()
        &&& self.shaders.wf()
        &&& self.scheduler.wf()
        &&& self.input.wf()
    }

    /// The live view slot indices, ascending and duplicate-free: the set
    /// a redraw-all cycle traverses.
    pub fn live_view_indices(&self) -> (live: Vec<usize>)
        ensures
            forall|k: int|
                0 <= k < live@.len() ==> self.views.is_live(#[trigger] live@[k] as int),
            forall|i: int|
                0 <= i < self.views.len() && self.views.is_live(i) ==> live@.contains(i as usize),
            forall|a: int, b: int| 0 <= a < b < live@.len() ==> live@[a] < live@[b],
            crate::sched::unique(live@),
    {
        let mut live: Vec<usize> = Vec::new();
        let mut i: usize = 0;
        let n = self.views.slot_count();
        while i < n
            invariant
                n as int == self.views.len(),
                0 <= i <= n,
                forall|k: int|
                    0 <= k < live@.len() ==> self.views.is_live(#[trigger] live@[k] as int)
                        && live@[k] < i,
                forall|j: int| 0 <= j < i && self.views.is_live(j) ==> live@.contains(j as usize),
                forall|a: int, b: int| 0 <= a < b < live@.len() ==> live@[a] < live@[b],
            decreases n - i,
        {
            if self.views.live(i) {
                let ghost pre_live = live@;
                live.push(i);
                proof {
                    assert forall|j: int|
                        0 <= j < i + 1 && self.views.is_live(j) implies live@.contains(
                        j as usize,
                    ) by {
                        if j < i {
                            let k = choose|k: int|
                                0 <= k < pre_live.len() && pre_live[k] == (j as usize);
                            assert(live@[k] == j as usize);
                        } else {
                            assert(live@[live@.len() - 1] == i as usize);
                        }
                    }
                    assert forall|a: int, b: int|
                        0 <= a < b < live@.len() implies live@[a] < live@[b] by {
                        if b == live@.len() - 1 {
                            assert(pre_live[a] < i);
                        }
                    }
                }
            }
            i = i + 1;
        }
        live
    }

    /// Begins a redraw cycle over the views that are live now, advancing
    /// the redraw generation counter (see
    /// [`RedrawScheduler::begin_cycle`]).  Only the scheduler changes.
    pub fn begin_redraw_cycle(&mut self)
        requires
            old(self).wf(),
            old(self).scheduler.redraw_id() < u64::MAX,
        ensures
            final(self).wf(),
            exists|live: Seq<usize>|
                #[trigger] begin_post(old(self).scheduler, final(self).scheduler, live)
                    && (forall|i: int|
                    0 <= i < old(self).views.len() && old(self).views.is_live(i) ==> live.contains(
                        i as usize,
                    )) && (forall|k: int|
                    0 <= k < live.len() ==> old(self).views.is_live(#[trigger] live[k] as int)),
            unchanged_but_scheduler(*old(self), *final(self)),
    {
        let live = self.live_view_indices();
        self.scheduler.begin_cycle(&live);
    }

    /// Ends the redraw cycle and advances the repaint generation counter.
    pub fn end_redraw_cycle(&mut self)
        requires
            old(self).wf(),
            old(self).repaint_id < u64::MAX,
        ensures
            final(self).wf(),
            !final(self).scheduler.in_cycle(),
            final(self).scheduler.current() == old(self).scheduler.current(),
            final(self).scheduler.pending() == old(self).scheduler.pending(),
            final(self).scheduler.redraw_id() == old(self).scheduler.redraw_id(),
            final(self).repaint_id == old(self).repaint_id + 1,
            final(self).views == old(self).views,
            final(self).input == old(self).input,
            final(self).signals == old(self).signals,
    {
        self.scheduler.end_cycle();
        self.repaint_id = self.repaint_id + 1;
    }

    /// Whether `view` has not been drawn in the current redraw
    /// generation: the staleness test downstream consumers gate on.
    pub fn view_is_stale(&self, view: usize) -> (r: bool)
        requires
            self.wf(),
            self.views.is_live(view as int),
        ensures
            r == (self.views.value_at(view as int).redraw_id != self.scheduler.redraw_id()),
    {
        self.views.get(view).redraw_id != self.scheduler.redraw_id_now()
    }

    /// Records that `view` was drawn in the current redraw generation,
    /// so it is no longer stale.
    pub fn mark_view_drawn(&mut self, view: usize)
        requires
            old(self).wf(),
            old(self).views.is_live(view as int),
        ensures
            final(self).wf(),
            final(self).views.value_at(view as int).redraw_id
                == final(self).scheduler.redraw_id(),
            final(self).views.slots() == old(self).views.slots().update(
                view as int,
                Some(CxView { redraw_id: old(self).scheduler.redraw_id() }),
            ),
            *final(self) == (Cx { views: final(self).views, ..*old(self) }),
    {
        let generation = self.scheduler.redraw_id_now();
        self.views.set(view, CxView { redraw_id: generation });
    }

    /// Hands out the next event generation id.
    pub fn next_event_id(&mut self) -> (id: u64)
        requires
            old(self).event_id < u64::MAX,
        ensures
            *final(self) == (Cx { event_id: (old(self).event_id + 1) as u64, ..*old(self) }),
            id == old(self).event_id,
    {
        let id = self.event_id;
        self.event_id = self.event_id + 1;
        id
    }

    /// Hands out the next timer id.
    pub fn next_timer_id(&mut self) -> (id: u64)
        requires
            old(self).timer_id < u64::MAX,
        ensures
            *final(self) == (Cx { timer_id: (old(self).timer_id + 1) as u64, ..*old(self) }),
            id == old(self).timer_id,
    {
        let id = self.timer_id;
        self.timer_id = self.timer_id + 1;
        id
    }

    /// Hands out the next next-frame id.
    pub fn next_frame_id(&mut self) -> (id: u64)
        requires
            old(self).next_frame_id < u64::MAX,
        ensures
            *final(self) == (Cx {
                next_frame_id: (old(self).next_frame_id + 1) as u64,
                ..*old(self)
            }),
            id == old(self).next_frame_id,
    {
        let id = self.next_frame_id;
        self.next_frame_id = self.next_frame_id + 1;
        id
    }

    /// Hands out a fresh signal id.
    pub fn new_signal(&mut self) -> (id: u64)
        requires
            old(self).signal_id < u64::MAX,
        ensures
            *final(self) == (Cx { signal_id: (old(self).signal_id + 1) as u64, ..*old(self) }),
            id == old(self).signal_id,
    {
        let id = self.signal_id;
        self.signal_id = self.signal_id + 1;
        id
    }
}

/// Everything but the scheduler is untouched.
pub open spec fn unchanged_but_scheduler(pre: Cx, post: Cx) -> bool {
    post == (Cx { scheduler: post.scheduler, ..pre })
}

impl Default for Cx {
    /// A fresh context: empty arenas except for the reserved null texture
    /// at texture slot 0, nothing pending anywhere, every generation
    /// counter at 1, everything forced dirty for the first cycle.
    fn default() -> (cx: Cx)
        ensures
            cx.wf(),
            cx.running,
            cx.counter == 0,
            cx.platform_type is Unknown,
            cx.windows.len() == 0,
            cx.passes.len() == 0,
            cx.views.len() == 0,
            cx.fonts.len() == 0,
            cx.textures.len() == 1,
            cx.textures.is_live(0),
            cx.textures.value_at(0).desc == null_texture_desc(),
            cx.textures.value_at(0).image_u32@.len() == 16,
            forall|k: int| 0 <= k < 16 ==> cx.textures.value_at(0).image_u32@[k] == 0u32,
            cx.textures.value_at(0).update_image,
            cx.geometries.arena().len() == 0,
            cx.geometries.cache() =~= Map::<u64, crate::dedup::CacheRef>::empty(),
            cx.shaders.pending() =~= Seq::<u64>::empty(),
            cx.shaders.compiled() =~= Map::<u64, usize>::empty(),
            cx.scheduler.current() =~= Seq::<usize>::empty(),
            cx.scheduler.pending() =~= Seq::<usize>::empty(),
            cx.scheduler.redraw_all(),
            !cx.scheduler.in_cycle(),
            cx.scheduler.redraw_id() == 1,
            cx.input.key_focus() == crate::area::Area::Empty,
            cx.input.prev_key_focus() == crate::area::Area::Empty,
            cx.input.next_key_focus() == crate::area::Area::Empty,
            cx.input.tap_time_threshold() == DEFAULT_TAP_TIME_THRESHOLD,
            cx.input.tap_dist_threshold() == DEFAULT_TAP_DIST_THRESHOLD,
            forall|s: u64| #[trigger] cx.signals.pending_of(s) =~= Seq::<u64>::empty(),
            cx.repaint_id == 1,
            cx.event_id == 1,
            cx.timer_id == 1,
            cx.next_frame_id == 1,
            cx.signal_id == 1,
    {
        let mut image: Vec<u32> = Vec::new();
        let mut i: usize = 0;
        while i < 16
            invariant
                0 <= i <= 16,
                image@.len() == i,
                forall|k: int| 0 <= k < i ==> image@[k] == 0u32,
            decreases 16 - i,
        {
            image.push(0);
            i = i + 1;
        }
        let null_texture = CxTexture {
            desc: TextureDesc {
                format: TextureFormat::ImageBGRA,
                width: Some(4),
                height: Some(4),
                multisample: None,
            },
            image_u32: image,
            update_image: true,
        };
        Cx {
            running: true,
            counter: 0,
            platform_type: PlatformType::Unknown,
            windows: Arena::new(),
            passes: Arena::new(),
            views: Arena::new(),
            fonts: Arena::new(),
            textures: Arena::with_sentinel(null_texture),
            geometries: DedupArena::new(),
            shaders: ShaderTracker::new(),
            scheduler: RedrawScheduler::new(),
            input: InputRouter::new(DEFAULT_TAP_TIME_THRESHOLD, DEFAULT_TAP_DIST_THRESHOLD),
            signals: SignalBus::new(),
            repaint_id: 1,
            event_id: 1,
            timer_id: 1,
            next_frame_id: 1,
            signal_id: 1,
        }
    }
}

} // verus!
