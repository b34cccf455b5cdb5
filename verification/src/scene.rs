//! The table and what stands on it at the start of a session: four cushions,
//! the cue ball, the fifteen racked object balls and the cue tip, kept in one
//! list and referred to by their places in it.

use crate::exact::{views_of, Coord, Point, Surd, SurdPoint};
use crate::rack::{layout_fits, layout_in, rack_positions};
use vstd::prelude::*;

verus! {

/// Table units in one centimetre.
pub const UNITS_PER_CM: u32 = 10_000;

/// Thousandths in one: the unit of the coefficients of [`Dynamics`].
pub const PER_MILLE: u32 = 1_000;

/// The place of the first of the four cushions in a scene built by
/// [`build_scene`].
pub const FIRST_CUSHION: usize = 0;

/// The place of the cue ball in such a scene.
pub const CUE_BALL: usize = 4;

/// The place of the first of the fifteen object balls in such a scene.
pub const FIRST_OBJECT_BALL: usize = 5;

/// The place of the cue tip in such a scene.
pub const CUE_TIP: usize = 20;

/// The number of bodies of such a scene.
pub const SCENE_BODIES: usize = 21;

/// The side of the square cue tip: 2 cm.
pub const CUE_TIP_SIDE: u64 = 20_000;

/// How far below the table's centre the cue tip starts: 60 cm.
pub const CUE_TIP_DROP: i32 = 600_000;

/// The place of a body in its scene.
#[derive(Clone, Copy, Debug, PartialEq, Eq, Structural)]
pub struct BodyId(pub usize);

/// What a body is.
#[derive(Clone, Copy, Debug, PartialEq, Eq, Structural)]
pub enum BodyKind {
    Cushion,
    CueBall,
    ObjectBall,
    CueTip,
}

/// The outline of a body, by its full extents.
#[derive(Clone, Copy, Debug, PartialEq, Eq)]
pub enum Shape {
    Ball { diameter: u32 },
    Rectangle { width: u64, height: u64 },
}

/// How a moving body behaves. The coefficients are in thousandths.
#[derive(Clone, Copy, Debug, PartialEq, Eq)]
pub struct Dynamics {
    pub restitution: u32,
    pub linear_damping: u32,
    pub angular_damping: u32,
    pub gravity_scale: u32,
    /// Mass added to that of the shape, in whole units.
    pub added_mass: Option<u32>,
    /// A sensor reports what it overlaps and collides with nothing.
    pub sensor: bool,
    pub reports_contacts: bool,
}

impl Dynamics {
    /// A ball: lively, untouched by gravity, lightly damped.
    pub open spec fn ball_model() -> Dynamics {
        Dynamics {
            restitution: 950,
            linear_damping: 100,
            angular_damping: 100,
            gravity_scale: 0,
            added_mass: None,
            sensor: false,
            reports_contacts: false,
        }
    }

    /// The cue tip: a heavy sensor that reports its contacts.
    pub open spec fn cue_tip_model() -> Dynamics {
        Dynamics {
            restitution: 950,
            linear_damping: 300,
            angular_damping: 100,
            gravity_scale: 0,
            added_mass: Some(100u32),
            sensor: true,
            reports_contacts: true,
        }
    }

    /// The dynamics of a ball: [`Dynamics::ball_model`].
    pub fn ball() -> (dynamics: Dynamics)
        ensures
            dynamics == Dynamics::ball_model(),
    {
        Dynamics {
            restitution: 950,
            linear_damping: 100,
            angular_damping: 100,
            gravity_scale: 0,
            added_mass: None,
            sensor: false,
            reports_contacts: false,
        }
    }

    /// The dynamics of the cue tip: [`Dynamics::cue_tip_model`].
    pub fn cue_tip() -> (dynamics: Dynamics)
        ensures
            dynamics == Dynamics::cue_tip_model(),
    {
        Dynamics {
            restitution: 950,
            linear_damping: 300,
            angular_damping: 100,
            gravity_scale: 0,
            added_mass: Some(100),
            sensor: true,
            reports_contacts: true,
        }
    }
}

/// One body of a scene, with its centre as exact numbers.
pub struct BodyModel {
    pub kind: BodyKind,
    pub shape: Shape,
    pub centre: SurdPoint,
    /// `None` for a body that never moves.
    pub dynamics: Option<Dynamics>,
}

/// One body of a scene.
#[derive(Clone, Copy, Debug, PartialEq, Eq)]
pub struct Body {
    pub kind: BodyKind,
    pub shape: Shape,
    pub centre: Point,
    /// `None` for a body that never moves.
    pub dynamics: Option<Dynamics>,
}

impl View for Body {
    type V = BodyModel;

    open spec fn view(&self) -> BodyModel {
        BodyModel {
            kind: self.kind,
            shape: self.shape,
            centre: self.centre@,
            dynamics: self.dynamics,
        }
    }
}

/// The sizes of a table, in table units.
#[derive(Clone, Copy, Debug, PartialEq, Eq)]
pub struct TableGeometry {
    /// Half the width of the playing surface, along x.
    pub half_width: u32,
    /// Half the length of the playing surface, along y.
    pub half_length: u32,
    /// The thickness of a cushion.
    pub edge_width: u32,
    pub ball_diameter: u32,
    /// From the far edge of the playing surface to the middle row of the rack.
    pub edge_to_string: u32,
    /// Added to both coordinates of every racked ball.
    pub ball_tolerance: i32,
}

impl TableGeometry {
    /// How far the middle row of the rack lies above the table's centre: half
    /// the table's length less the distance from its edge.
    pub open spec fn centre_to_string(self) -> int {
        self.half_length - self.edge_to_string
    }

    /// A table of 112 cm by 224 cm with cushions 19 cm thick, balls of
    /// 5.715 cm, the rack 22 inches from the edge, and a tolerance of 1 mm.
    pub fn standard() -> (geometry: TableGeometry)
        ensures
            geometry.half_width == 560_000,
            geometry.half_length == 1_120_000,
            geometry.edge_width == 190_000,
            geometry.ball_diameter == 57_150,
            geometry.edge_to_string == 558_800,
            geometry.ball_tolerance == 1_000,
    {
        TableGeometry {
            half_width: 560_000,
            half_length: 1_120_000,
            edge_width: 190_000,
            ball_diameter: 57_150,
            edge_to_string: 558_800,
            ball_tolerance: 1_000,
        }
    }
}

/// The cushion at place `index`, one of the first four of a scene. The two at
/// the low ends of the axes come first, the one across the table before the
/// one along it; then the two at the high ends. A cushion lies just outside
/// the playing surface: its centre is half the surface and half its own
/// thickness from the centre of the table.
pub open spec fn cushion_model(g: TableGeometry, index: int) -> BodyModel {
    let side: int = if index < 2 {
        -1
    } else {
        1
    };
    if index % 2 == 0 {
        BodyModel {
            kind: BodyKind::Cushion,
            shape: Shape::Rectangle { width: (2 * g.half_width) as u64, height: g.edge_width as u64 },
            centre: SurdPoint {
                x: Surd::whole(0),
                y: Surd::half(side * (2 * g.half_length + g.edge_width)),
            },
            dynamics: None,
        }
    } else {
        BodyModel {
            kind: BodyKind::Cushion,
            shape: Shape::Rectangle { width: g.edge_width as u64, height: (2 * g.half_length) as u64 },
            centre: SurdPoint {
                x: Surd::half(side * (2 * g.half_width + g.edge_width)),
                y: Surd::whole(0),
            },
            dynamics: None,
        }
    }
}

/// The cue ball: on the table's long axis, half way between its centre and
/// its near edge.
pub open spec fn cue_ball_model(g: TableGeometry) -> BodyModel {
    BodyModel {
        kind: BodyKind::CueBall,
        shape: Shape::Ball { diameter: g.ball_diameter },
        centre: SurdPoint { x: Surd::whole(0), y: Surd::half(-g.half_length) },
        dynamics: Some(Dynamics::ball_model()),
    }
}

/// An object ball centred on `centre`.
pub open spec fn object_ball_model(g: TableGeometry, centre: SurdPoint) -> BodyModel {
    BodyModel {
        kind: BodyKind::ObjectBall,
        shape: Shape::Ball { diameter: g.ball_diameter },
        centre,
        dynamics: Some(Dynamics::ball_model()),
    }
}

/// The cue tip: a small square on the table's long axis, below the cue ball.
pub open spec fn cue_tip_model() -> BodyModel {
    BodyModel {
        kind: BodyKind::CueTip,
        shape: Shape::Rectangle { width: CUE_TIP_SIDE, height: CUE_TIP_SIDE },
        centre: SurdPoint { x: Surd::whole(0), y: Surd::whole(-CUE_TIP_DROP) },
        dynamics: Some(Dynamics::cue_tip_model()),
    }
}

/// The body at place `index` of the scene of a table: the cushions, the cue
/// ball, the object balls in the order of their rack, the cue tip.
pub open spec fn body_model(g: TableGeometry, index: int) -> BodyModel {
    if index < CUE_BALL {
        cushion_model(g, index)
    } else if index == CUE_BALL {
        cue_ball_model(g)
    } else if index < CUE_TIP {
        object_ball_model(
            g,
            rack_positions(
                g.ball_diameter as int,
                g.centre_to_string(),
                g.ball_tolerance as int,
            )[index - FIRST_OBJECT_BALL],
        )
    } else {
        cue_tip_model()
    }
}

/// The scene of a table: twenty-one bodies.
pub open spec fn scene_model(g: TableGeometry) -> Seq<BodyModel> {
    Seq::new(SCENE_BODIES as nat, |index: int| body_model(g, index))
}

/// No body of `bodies` is a `kind`.
pub open spec fn has_none(bodies: Seq<BodyModel>, kind: BodyKind) -> bool {
    forall|i: int| 0 <= i < bodies.len() ==> (#[trigger] bodies[i]).kind != kind
}

/// The body at place `at` is the only `kind` of `bodies`.
pub open spec fn is_sole(bodies: Seq<BodyModel>, kind: BodyKind, at: int) -> bool {
    &&& 0 <= at < bodies.len()
    &&& bodies[at].kind == kind
    &&& forall|i: int| 0 <= i < bodies.len() && (#[trigger] bodies[i]).kind == kind ==> i == at
}

/// Exactly one body of `bodies` is a `kind`.
pub open spec fn has_one(bodies: Seq<BodyModel>, kind: BodyKind) -> bool {
    exists|at: int| is_sole(bodies, kind, at)
}

/// Two bodies of `bodies` or more are a `kind`.
pub open spec fn has_several(bodies: Seq<BodyModel>, kind: BodyKind) -> bool {
    exists|i: int, j: int|
        0 <= i < j < bodies.len() && (#[trigger] bodies[i]).kind == kind && (
        #[trigger] bodies[j]).kind == kind
}

/// Everything on and around a table.
#[derive(Debug, PartialEq, Eq)]
pub struct Scene {
    pub bodies: Vec<Body>,
}

impl View for Scene {
    type V = Seq<BodyModel>;

    open spec fn view(&self) -> Seq<BodyModel> {
        Seq::new(self.bodies@.len(), |i: int| self.bodies@[i]@)
    }
}

/// The cue tip and the cue ball of a scene, by their places.
#[derive(Clone, Copy, Debug, PartialEq, Eq)]
pub struct CuePair {
    pub tip: BodyId,
    pub ball: BodyId,
}

/// Why a scene cannot be played: it must hold one cue tip and one cue ball.
#[derive(Clone, Copy, Debug, PartialEq, Eq)]
pub enum SceneError {
    /// No body is a cue tip.
    MissingCueTip,
    /// Two bodies or more are cue tips.
    DuplicateCueTip,
    /// There is one cue tip, and no body is a cue ball.
    MissingCueBall,
    /// There is one cue tip, and two bodies or more are cue balls.
    DuplicateCueBall,
}

/// How many bodies of a kind a scene holds, as far as it matters.
enum Census {
    Nobody,
    Sole(usize),
    Several,
}

/// Of a kind, a scene holds none, or one only, or several: and never two of
/// these at once.
pub proof fn lemma_none_sole_or_several(bodies: Seq<BodyModel>, kind: BodyKind)
    ensures
        has_none(bodies, kind) || has_one(bodies, kind) || has_several(bodies, kind),
        !(has_none(bodies, kind) && has_several(bodies, kind)),
        !(has_one(bodies, kind) && has_none(bodies, kind)),
        !(has_one(bodies, kind) && has_several(bodies, kind)),
{
    if !has_none(bodies, kind) && !has_several(bodies, kind) {
        let at = choose|i: int| 0 <= i < bodies.len() && (#[trigger] bodies[i]).kind == kind;
        assert forall|i: int|
            0 <= i < bodies.len() && (#[trigger] bodies[i]).kind == kind implies i == at by {
            if i < at {
                assert(bodies[i].kind == kind && bodies[at].kind == kind);
            } else if at < i {
                assert(bodies[at].kind == kind && bodies[i].kind == kind);
            }
        }
        assert(is_sole(bodies, kind, at));
    }
    if has_several(bodies, kind) {
        let (i, j) = choose|i: int, j: int|
            0 <= i < j < bodies.len() && (#[trigger] bodies[i]).kind == kind && (
            #[trigger] bodies[j]).kind == kind;
        assert(bodies[i].kind == kind && bodies[j].kind == kind);
    }
}

impl Scene {
    /// Counts the bodies of a kind up to two, and finds the one if it is
    /// alone.
    fn census(&self, kind: BodyKind) -> (found: Census)
        ensures
            match found {
                Census::Nobody => has_none(self@, kind),
                Census::Sole(at) => is_sole(self@, kind, at as int),
                Census::Several => has_several(self@, kind),
            },
    {
        let mut first: Option<usize> = None;
        let mut i: usize = 0;
        while i < self.bodies.len()
            invariant
                i <= self.bodies@.len(),
                self@.len() == self.bodies@.len(),
                match first {
                    None => forall|j: int| 0 <= j < i ==> (#[trigger] self@[j]).kind != kind,
                    Some(at) => at < i && self@[at as int].kind == kind && forall|j: int|
                        0 <= j < i && (#[trigger] self@[j]).kind == kind ==> j == at,
                },
            decreases self.bodies@.len() - i,
        {
            assert(self@[i as int].kind == self.bodies@[i as int].kind);
            if self.bodies[i].kind == kind {
                match first {
                    Some(at) => {
                        assert(self@[at as int].kind == kind && self@[i as int].kind == kind);
                        return Census::Several;
                    },
                    None => {
                        first = Some(i);
                    },
                }
            }
            i += 1;
        }
        match first {
            None => Census::Nobody,
            Some(at) => Census::Sole(at),
        }
    }

    /// Finds the cue tip and the cue ball, and refuses a scene that does not
    /// hold exactly one of each. A fault of the cue tip is reported before
    /// one of the cue ball.
    pub fn cue_pair(&self) -> (pair: Result<CuePair, SceneError>)
        ensures
            pair matches Ok(found) ==> is_sole(self@, BodyKind::CueTip, found.tip.0 as int)
                && is_sole(self@, BodyKind::CueBall, found.ball.0 as int),
            pair is Ok <==> has_one(self@, BodyKind::CueTip) && has_one(self@, BodyKind::CueBall),
            pair == Err::<CuePair, SceneError>(SceneError::MissingCueTip) <==> has_none(
                self@,
                BodyKind::CueTip,
            ),
            pair == Err::<CuePair, SceneError>(SceneError::DuplicateCueTip) <==> has_several(
                self@,
                BodyKind::CueTip,
            ),
            pair == Err::<CuePair, SceneError>(SceneError::MissingCueBall) <==> has_one(
                self@,
                BodyKind::CueTip,
            ) && has_none(self@, BodyKind::CueBall),
            pair == Err::<CuePair, SceneError>(SceneError::DuplicateCueBall) <==> has_one(
                self@,
                BodyKind::CueTip,
            ) && has_several(self@, BodyKind::CueBall),
    {
        proof {
            lemma_none_sole_or_several(self@, BodyKind::CueTip);
            lemma_none_sole_or_several(self@, BodyKind::CueBall);
        }
        let tip: usize = match self.census(BodyKind::CueTip) {
            Census::Nobody => {
                return Err(SceneError::MissingCueTip);
            },
            Census::Several => {
                return Err(SceneError::DuplicateCueTip);
            },
            Census::Sole(at) => at,
        };
        match self.census(BodyKind::CueBall) {
            Census::Nobody => Err(SceneError::MissingCueBall),
            Census::Several => Err(SceneError::DuplicateCueBall),
            Census::Sole(ball) => Ok(CuePair { tip: BodyId(tip), ball: BodyId(ball) }),
        }
    }
}

/// Builds the scene of a table: [`scene_model`]. It holds one cue ball and
/// one cue tip, at the places [`CUE_BALL`] and [`CUE_TIP`].
pub fn build_scene(geometry: &TableGeometry) -> (scene: Scene)
    ensures
        scene@ == scene_model(*geometry),
        is_sole(scene@, BodyKind::CueBall, CUE_BALL as int),
        is_sole(scene@, BodyKind::CueTip, CUE_TIP as int),
{
    let g: TableGeometry = *geometry;
    let across = Shape::Rectangle { width: 2 * (g.half_width as u64), height: g.edge_width as u64 };
    let along = Shape::Rectangle { width: g.edge_width as u64, height: 2 * (g.half_length as u64) };
    let reach_x: i64 = 2 * (g.half_width as i64) + (g.edge_width as i64);
    let reach_y: i64 = 2 * (g.half_length as i64) + (g.edge_width as i64);
    let mut bodies: Vec<Body> = Vec::new();
    let mut side: i64 = -1;
    while side <= 1
        invariant
            side == -1 || side == 1 || side == 3,
            bodies@.len() == side + 1,
            across == (Shape::Rectangle {
                width: (2 * g.half_width) as u64,
                height: g.edge_width as u64,
            }),
            along == (Shape::Rectangle {
                width: g.edge_width as u64,
                height: (2 * g.half_length) as u64,
            }),
            reach_x == 2 * g.half_width + g.edge_width,
            reach_y == 2 * g.half_length + g.edge_width,
            forall|i: int| 0 <= i < bodies@.len() ==> (#[trigger] bodies@[i])@ == body_model(g, i),
        decreases 3 - side,
    {
        bodies.push(
            Body {
                kind: BodyKind::Cushion,
                shape: across,
                centre: Point { x: Coord::whole(0), y: Coord::half(side * reach_y) },
                dynamics: None,
            },
        );
        bodies.push(
            Body {
                kind: BodyKind::Cushion,
                shape: along,
                centre: Point { x: Coord::half(side * reach_x), y: Coord::whole(0) },
                dynamics: None,
            },
        );
        side += 2;
    }
    let ball = Shape::Ball { diameter: g.ball_diameter };
    bodies.push(
        Body {
            kind: BodyKind::CueBall,
            shape: ball,
            centre: Point { x: Coord::whole(0), y: Coord::half(-(g.half_length as i64)) },
            dynamics: Some(Dynamics::ball()),
        },
    );
    let centre_to_string: i64 = (g.half_length as i64) - (g.edge_to_string as i64);
    let rack = layout_in(g.ball_diameter as i64, centre_to_string, g.ball_tolerance as i64);
    let ghost spots = rack_positions(
        g.ball_diameter as int,
        g.centre_to_string(),
        g.ball_tolerance as int,
    );
    assert(rack@.len() == views_of(rack@).len());
    let mut placed: usize = 0;
    while placed < rack.len()
        invariant
            placed <= rack@.len() == 15,
            bodies@.len() == FIRST_OBJECT_BALL + placed,
            ball == (Shape::Ball { diameter: g.ball_diameter }),
            views_of(rack@) == spots,
            spots == rack_positions(
                g.ball_diameter as int,
                g.centre_to_string(),
                g.ball_tolerance as int,
            ),
            forall|i: int| 0 <= i < bodies@.len() ==> (#[trigger] bodies@[i])@ == body_model(g, i),
        decreases rack@.len() - placed,
    {
        assert(views_of(rack@)[placed as int] == rack@[placed as int]@);
        bodies.push(
            Body {
                kind: BodyKind::ObjectBall,
                shape: ball,
                centre: rack[placed],
                dynamics: Some(Dynamics::ball()),
            },
        );
        placed += 1;
    }
    bodies.push(
        Body {
            kind: BodyKind::CueTip,
            shape: Shape::Rectangle { width: CUE_TIP_SIDE, height: CUE_TIP_SIDE },
            centre: Point { x: Coord::whole(0), y: Coord::whole(-CUE_TIP_DROP) },
            dynamics: Some(Dynamics::cue_tip()),
        },
    );
    let scene = Scene { bodies };
    assert(scene@ =~= scene_model(g));
    scene
}

} // verus!
