//! Floating panels in the VR scene.
//!
//! A decorative scene graph of flat surfaces: each panel has an id,
//! a pose and a content tag. Coordinates are fixed point with 10000
//! standing for one scene unit; the platform layer builds its model
//! matrices from these fields.

use vstd::prelude::*;
use vstd::string::StringExecFns;
use crate::quat::Quat;

verus! {

/// Saturation bound for panel coordinates.
pub const MAX_COORD: i64 = 0x1000000000000;

/// Smallest panel scale (0.3 in fixed point).
pub const MIN_PANEL_SCALE: i64 = 3000;

/// Largest panel scale (3.0 in fixed point).
pub const MAX_PANEL_SCALE: i64 = 30000;

/// A point or extent in scene space, fixed point (10000 is 1.0).
#[derive(Clone, Copy, PartialEq, Eq, Structural, Debug)]
pub struct Vec3Fixed {
    pub x: i64,
    pub y: i64,
    pub z: i64,
}

/// What a panel displays.
pub enum PanelContent {
    /// An embedded web view.
    Browser { url: String },
    /// The application launcher dock.
    Dock,
    /// The settings surface.
    Settings,
}

/// One floating surface.
pub struct Panel {
    pub id: u32,
    pub position: Vec3Fixed,
    pub rotation: Quat,
    pub scale: Vec3Fixed,
    pub title: String,
    pub content_type: PanelContent,
}

/// A coordinate held inside the saturation bound.
pub open spec fn spec_clamp_coord(v: int) -> int {
    if v > MAX_COORD {
        MAX_COORD as int
    } else if v < -MAX_COORD {
        -MAX_COORD as int
    } else {
        v
    }
}

/// A panel scale held inside its slider range.
pub open spec fn spec_clamp_scale(v: int) -> int {
    if v > MAX_PANEL_SCALE {
        MAX_PANEL_SCALE as int
    } else if v < MIN_PANEL_SCALE {
        MIN_PANEL_SCALE as int
    } else {
        v
    }
}

/// Manages the panels in the scene.
pub struct WindowManager {
    pub panels: Vec<Panel>,
    pub next_id: u32,
    pub focused_panel: Option<u32>,
}

impl WindowManager {
    /// Panel coordinates bounded, so pose arithmetic cannot overflow.
    pub open spec fn wf(self) -> bool {
        forall|i: int|
            0 <= i < self.panels@.len() ==> {
                let p = #[trigger] self.panels@[i];
                &&& -MAX_COORD <= p.position.x <= MAX_COORD
                &&& -MAX_COORD <= p.position.y <= MAX_COORD
                &&& -MAX_COORD <= p.position.z <= MAX_COORD
            }
    }

    /// An empty scene.
    pub fn new() -> (w: WindowManager)
        ensures
            w.panels@.len() == 0,
            w.next_id == 0,
            w.focused_panel is None,
            w.wf(),
    {
        WindowManager { panels: Vec::new(), next_id: 0, focused_panel: None }
    }

    /// Spawn a web-view panel at the given position (16:9 surface) and
    /// focus it; returns its id.
    pub fn spawn_browser(&mut self, url: &str, position: Vec3Fixed) -> (id: u32)
        requires
            old(self).wf(),
            old(self).next_id < u32::MAX,
            -MAX_COORD <= position.x <= MAX_COORD,
            -MAX_COORD <= position.y <= MAX_COORD,
            -MAX_COORD <= position.z <= MAX_COORD,
        ensures
            final(self).wf(),
            id == old(self).next_id,
            final(self).next_id == old(self).next_id + 1,
            final(self).focused_panel == Some(id),
            final(self).panels@.len() == old(self).panels@.len() + 1,
            forall|i: int|
                0 <= i < old(self).panels@.len() ==> final(self).panels@[i] == old(
                    self,
                ).panels@[i],
            ({
                let p = final(self).panels@.last();
                &&& p.id == id
                &&& p.position == position
                &&& p.rotation.is_identity_rotation()
                &&& p.scale == (Vec3Fixed { x: 16000i64, y: 9000i64, z: 100i64 })
                &&& p.content_type matches PanelContent::Browser { url: u } && u@ == url@
            }),
    {
        let id = self.next_id;
        self.next_id = self.next_id + 1;
        let panel = Panel {
            id,
            position,
            rotation: Quat::identity(),
            scale: Vec3Fixed { x: 16000, y: 9000, z: 100 },
            title: String::from_str("Browser"),
            content_type: PanelContent::Browser { url: url.to_owned() },
        };
        self.panels.push(panel);
        self.focused_panel = Some(id);
        id
    }

    /// Spawn the launcher dock: a wide strip below the view, tilted
    /// slightly up (a fixed small rotation about the x axis).
    pub fn spawn_dock(&mut self) -> (id: u32)
        requires
            old(self).wf(),
            old(self).next_id < u32::MAX,
        ensures
            final(self).wf(),
            id == old(self).next_id,
            final(self).next_id == old(self).next_id + 1,
            final(self).focused_panel == old(self).focused_panel,
            final(self).panels@.len() == old(self).panels@.len() + 1,
            forall|i: int|
                0 <= i < old(self).panels@.len() ==> final(self).panels@[i] == old(
                    self,
                ).panels@[i],
            ({
                let p = final(self).panels@.last();
                &&& p.id == id
                &&& p.position == (Vec3Fixed { x: 0i64, y: -8000i64, z: -20000i64 })
                &&& p.rotation == (Quat { x: -998i64, y: 0i64, z: 0i64, w: 9950i64 })
                &&& p.scale == (Vec3Fixed { x: 20000i64, y: 3000i64, z: 100i64 })
                &&& p.content_type is Dock
            }),
    {
        let id = self.next_id;
        self.next_id = self.next_id + 1;
        let panel = Panel {
            id,
            position: Vec3Fixed { x: 0, y: -8000, z: -20000 },
            // sin/cos of a -0.1 radian half-angle in fixed point: a
            // -0.2 radian tilt about the x axis.
            rotation: Quat { x: -998, y: 0, z: 0, w: 9950 },
            scale: Vec3Fixed { x: 20000, y: 3000, z: 100 },
            title: String::from_str("Dock"),
            content_type: PanelContent::Dock,
        };
        self.panels.push(panel);
        id
    }

    /// Move a panel by a delta, saturating at the coordinate bound; a
    /// missing id changes nothing.
    pub fn move_panel(&mut self, id: u32, delta: Vec3Fixed)
        requires
            old(self).wf(),
            -MAX_COORD <= delta.x <= MAX_COORD,
            -MAX_COORD <= delta.y <= MAX_COORD,
            -MAX_COORD <= delta.z <= MAX_COORD,
        ensures
            final(self).wf(),
            final(self).panels@.len() == old(self).panels@.len(),
            final(self).next_id == old(self).next_id,
            final(self).focused_panel == old(self).focused_panel,
            forall|i: int|
                0 <= i < old(self).panels@.len() ==> {
                    let p = old(self).panels@[i];
                    #[trigger] final(self).panels@[i] == (if p.id == id {
                        Panel {
                            position: Vec3Fixed {
                                x: spec_clamp_coord(p.position.x + delta.x) as i64,
                                y: spec_clamp_coord(p.position.y + delta.y) as i64,
                                z: spec_clamp_coord(p.position.z + delta.z) as i64,
                            },
                            ..p
                        }
                    } else {
                        p
                    })
                },
    {
        let n = self.panels.len();
        let mut i: usize = 0;
        while i < n
            invariant
                i <= n,
                n == old(self).panels@.len(),
                self.panels@.len() == n,
                self.next_id == old(self).next_id,
                self.focused_panel == old(self).focused_panel,
                -MAX_COORD <= delta.x <= MAX_COORD,
                -MAX_COORD <= delta.y <= MAX_COORD,
                -MAX_COORD <= delta.z <= MAX_COORD,
                old(self).wf(),
                forall|j: int|
                    0 <= j < i ==> {
                        let p = old(self).panels@[j];
                        #[trigger] self.panels@[j] == (if p.id == id {
                            Panel {
                                position: Vec3Fixed {
                                    x: spec_clamp_coord(p.position.x + delta.x) as i64,
                                    y: spec_clamp_coord(p.position.y + delta.y) as i64,
                                    z: spec_clamp_coord(p.position.z + delta.z) as i64,
                                },
                                ..p
                            }
                        } else {
                            p
                        })
                    },
                forall|j: int| i <= j < n ==> #[trigger] self.panels@[j] == old(self).panels@[j],
            decreases n - i,
        {
            if self.panels[i].id == id {
                let ghost before = self.panels@;
                let p = self.panels.remove(i);
                let px = clamp_coord(p.position.x + delta.x);
                let py = clamp_coord(p.position.y + delta.y);
                let pz = clamp_coord(p.position.z + delta.z);
                let moved = Panel { position: Vec3Fixed { x: px, y: py, z: pz }, ..p };
                self.panels.insert(i, moved);
                proof {
                    assert(self.panels@ =~= before.update(i as int, moved));
                }
            }
            i = i + 1;
        }
        proof {
            assert forall|i2: int| 0 <= i2 < final(self).panels@.len() implies {
                let p = #[trigger] final(self).panels@[i2];
                &&& -MAX_COORD <= p.position.x <= MAX_COORD
                &&& -MAX_COORD <= p.position.y <= MAX_COORD
                &&& -MAX_COORD <= p.position.z <= MAX_COORD
            } by {
                assert(0 <= i2 < old(self).panels@.len());
            }
        }
    }

    /// Rescale a panel's extents by a fixed-point factor, clamped to
    /// the allowed range; a missing id changes nothing.
    pub fn scale_panel(&mut self, id: u32, scale_factor: u64)
        requires
            old(self).wf(),
            scale_factor <= 1000000,
            forall|i: int|
                0 <= i < old(self).panels@.len() ==> {
                    let p = #[trigger] old(self).panels@[i];
                    &&& 0 <= p.scale.x <= MAX_PANEL_SCALE
                    &&& 0 <= p.scale.y <= MAX_PANEL_SCALE
                    &&& 0 <= p.scale.z <= MAX_PANEL_SCALE
                },
        ensures
            final(self).wf(),
            final(self).panels@.len() == old(self).panels@.len(),
            final(self).next_id == old(self).next_id,
            final(self).focused_panel == old(self).focused_panel,
            forall|i: int|
                0 <= i < old(self).panels@.len() ==> {
                    let p = old(self).panels@[i];
                    #[trigger] final(self).panels@[i] == (if p.id == id {
                        Panel {
                            scale: Vec3Fixed {
                                x: spec_clamp_scale(
                                    (p.scale.x * scale_factor) / 10000,
                                ) as i64,
                                y: spec_clamp_scale(
                                    (p.scale.y * scale_factor) / 10000,
                                ) as i64,
                                z: spec_clamp_scale(
                                    (p.scale.z * scale_factor) / 10000,
                                ) as i64,
                            },
                            ..p
                        }
                    } else {
                        p
                    })
                },
    {
        let n = self.panels.len();
        let mut i: usize = 0;
        while i < n
            invariant
                i <= n,
                n == old(self).panels@.len(),
                self.panels@.len() == n,
                self.next_id == old(self).next_id,
                self.focused_panel == old(self).focused_panel,
                scale_factor <= 1000000,
                old(self).wf(),
                forall|k: int|
                    0 <= k < n ==> {
                        let p = #[trigger] old(self).panels@[k];
                        &&& 0 <= p.scale.x <= MAX_PANEL_SCALE
                        &&& 0 <= p.scale.y <= MAX_PANEL_SCALE
                        &&& 0 <= p.scale.z <= MAX_PANEL_SCALE
                    },
                forall|j: int|
                    0 <= j < i ==> {
                        let p = old(self).panels@[j];
                        #[trigger] self.panels@[j] == (if p.id == id {
                            Panel {
                                scale: Vec3Fixed {
                                    x: spec_clamp_scale(
                                        (p.scale.x * scale_factor) / 10000,
                                    ) as i64,
                                    y: spec_clamp_scale(
                                        (p.scale.y * scale_factor) / 10000,
                                    ) as i64,
                                    z: spec_clamp_scale(
                                        (p.scale.z * scale_factor) / 10000,
                                    ) as i64,
                                },
                                ..p
                            }
                        } else {
                            p
                        })
                    },
                forall|j: int| i <= j < n ==> #[trigger] self.panels@[j] == old(self).panels@[j],
            decreases n - i,
        {
            if self.panels[i].id == id {
                proof {
                    let ghost sc = old(self).panels@[i as int].scale;
                    assert(0 <= sc.x * scale_factor <= 30000int * 1000000) by (nonlinear_arith)
                        requires
                            0 <= sc.x <= 30000,
                            0 <= scale_factor <= 1000000,
                    ;
                    assert(0 <= sc.y * scale_factor <= 30000int * 1000000) by (nonlinear_arith)
                        requires
                            0 <= sc.y <= 30000,
                            0 <= scale_factor <= 1000000,
                    ;
                    assert(0 <= sc.z * scale_factor <= 30000int * 1000000) by (nonlinear_arith)
                        requires
                            0 <= sc.z <= 30000,
                            0 <= scale_factor <= 1000000,
                    ;
                }
                let ghost before = self.panels@;
                let p = self.panels.remove(i);
                let sx = clamp_scale((p.scale.x * (scale_factor as i64)) / 10000);
                let sy = clamp_scale((p.scale.y * (scale_factor as i64)) / 10000);
                let sz = clamp_scale((p.scale.z * (scale_factor as i64)) / 10000);
                let scaled = Panel { scale: Vec3Fixed { x: sx, y: sy, z: sz }, ..p };
                self.panels.insert(i, scaled);
                proof {
                    assert(self.panels@ =~= before.update(i as int, scaled));
                }
            }
            i = i + 1;
        }
        proof {
            assert forall|i2: int| 0 <= i2 < final(self).panels@.len() implies {
                let p = #[trigger] final(self).panels@[i2];
                &&& -MAX_COORD <= p.position.x <= MAX_COORD
                &&& -MAX_COORD <= p.position.y <= MAX_COORD
                &&& -MAX_COORD <= p.position.z <= MAX_COORD
            } by {
                assert(0 <= i2 < old(self).panels@.len());
            }
        }
    }

    /// Remove a panel; when it was focused, focus falls to the first
    /// remaining panel (or nothing).
    pub fn close_panel(&mut self, id: u32)
        requires
            old(self).wf(),
        ensures
            final(self).wf(),
            final(self).panels@ == old(self).panels@.filter(|p: Panel| p.id != id),
            final(self).next_id == old(self).next_id,
            final(self).focused_panel == (if old(self).focused_panel == Some(id) {
                if final(self).panels@.len() > 0 {
                    Some(final(self).panels@[0].id)
                } else {
                    None::<u32>
                }
            } else {
                old(self).focused_panel
            }),
    {
        let n = self.panels.len();
        let mut kept: Vec<Panel> = Vec::new();
        proof {
            reveal(Seq::filter);
            assert(old(self).panels@.take(0) =~= Seq::<Panel>::empty());
            assert(kept@ =~= old(self).panels@.take(0).filter(|p: Panel| p.id != id));
        }
        let mut i: usize = 0;
        while i < n
            invariant
                i <= n,
                n == self.panels@.len(),
                self.panels@ == old(self).panels@,
                kept@ == old(self).panels@.take(i as int).filter(|p: Panel| p.id != id),
                old(self).wf(),
                forall|k: int|
                    0 <= k < kept@.len() ==> {
                        let p = #[trigger] kept@[k];
                        &&& -MAX_COORD <= p.position.x <= MAX_COORD
                        &&& -MAX_COORD <= p.position.y <= MAX_COORD
                        &&& -MAX_COORD <= p.position.z <= MAX_COORD
                    },
            decreases n - i,
        {
            proof {
                reveal(Seq::filter);
                assert(self.panels@.take(i + 1).drop_last() =~= self.panels@.take(i as int));
            }
            if self.panels[i].id != id {
                let p = &self.panels[i];
                kept.push(
                    Panel {
                        id: p.id,
                        position: p.position,
                        rotation: p.rotation,
                        scale: p.scale,
                        title: p.title.clone(),
                        content_type: clone_content(&p.content_type),
                    },
                );
                proof {
                    assert(kept@.last() == self.panels@[i as int]);
                    assert(kept@ =~= old(self).panels@.take(i + 1).filter(
                        |p: Panel| p.id != id,
                    ));
                }
            }
            i = i + 1;
        }
        proof {
            assert(old(self).panels@.take(n as int) =~= old(self).panels@);
            old(self).panels@.lemma_filter_len(|p: Panel| p.id != id);
        }
        self.panels = kept;
        let focused_was_closed = match self.focused_panel {
            Some(f) => f == id,
            None => false,
        };
        if focused_was_closed {
            if self.panels.len() > 0 {
                self.focused_panel = Some(self.panels[0].id);
            } else {
                self.focused_panel = None;
            }
        }
    }

    /// The panels in the scene, in spawn order.
    pub fn panels(&self) -> (r: &Vec<Panel>)
        ensures
            r == &self.panels,
    {
        &self.panels
    }
}

/// Saturate a scene coordinate.
fn clamp_coord(v: i64) -> (r: i64)
    ensures
        r == spec_clamp_coord(v as int),
{
    if v > MAX_COORD {
        MAX_COORD
    } else if v < -MAX_COORD {
        -MAX_COORD
    } else {
        v
    }
}

/// Clamp a panel scale to its slider range.
fn clamp_scale(v: i64) -> (r: i64)
    ensures
        r == spec_clamp_scale(v as int),
{
    if v > MAX_PANEL_SCALE {
        MAX_PANEL_SCALE
    } else if v < MIN_PANEL_SCALE {
        MIN_PANEL_SCALE
    } else {
        v
    }
}

/// Duplicate a content tag (deep copy of the URL).
fn clone_content(c: &PanelContent) -> (r: PanelContent)
    ensures
        r == *c,
{
    match c {
        PanelContent::Browser { url } => PanelContent::Browser { url: url.clone() },
        PanelContent::Dock => PanelContent::Dock,
        PanelContent::Settings => PanelContent::Settings,
    }
}

} // verus!
