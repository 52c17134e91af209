use super::building_assets::{PreviewBuildingHandle, SceneHandle};
use super::BuildingSettings;
use crate::input::{accumulate_line_scroll, line_scroll, MouseButton, MouseButtonInput, MouseWheel};
use crate::math::{wrap_angle, wrap_to_turn, CameraTransform, Transform, Vec3, FULL_TURN};
use vstd::arithmetic::div_mod::*;
use vstd::prelude::*;

verus! {

/// How far in front of the camera the preview stands, in world units, before
/// it is brought onto the grid.
pub const STANDOFF: i64 = 7;

/// How far the preview turns for a thousandth of a line of wheel travel:
/// fifteen degrees for each whole line.
pub const YAW_PER_SCROLL_UNIT: i64 = 15_000_000;

/// What an entity of the world is to the placement engine.
#[derive(Clone, Copy, Debug, PartialEq, Eq, Structural)]
pub enum EntityKind {
    /// The transient piece that follows the camera while building.
    Preview,
    /// A piece that was committed: it stays as it is.
    Placed,
}

/// An entity of the world: what it looks like, where it stands, and what it
/// is.
#[derive(Clone, Copy, Debug, PartialEq, Eq, Structural)]
pub struct Entity {
    pub scene: SceneHandle,
    pub transform: Transform,
    pub kind: EntityKind,
}

/// The entities that the placement engine has made, oldest first.
#[derive(Clone, Debug)]
pub struct World {
    pub entities: Vec<Entity>,
}

/// The number of preview entities among `entities`.
pub open spec fn preview_count(entities: Seq<Entity>) -> nat
    decreases entities.len(),
{
    if entities.len() == 0 {
        0
    } else {
        preview_count(entities.drop_last()) + if entities.last().kind == EntityKind::Preview {
            1nat
        } else {
            0nat
        }
    }
}

/// The placed objects among `entities`, in their order.
pub open spec fn placed_objects(entities: Seq<Entity>) -> Seq<Entity>
    decreases entities.len(),
{
    if entities.len() == 0 {
        Seq::empty()
    } else if entities.last().kind == EntityKind::Placed {
        placed_objects(entities.drop_last()).push(entities.last())
    } else {
        placed_objects(entities.drop_last())
    }
}

/// The oldest preview entity among `entities`, if there is any.
pub open spec fn first_preview(entities: Seq<Entity>) -> Option<Entity>
    decreases entities.len(),
{
    if entities.len() == 0 {
        None
    } else if entities.first().kind == EntityKind::Preview {
        Some(entities.first())
    } else {
        first_preview(entities.drop_first())
    }
}

/// The preview entity as it is made: the chosen scene, not yet moved.
pub open spec fn fresh_preview(scene: SceneHandle) -> Entity {
    Entity { scene, transform: Transform::spec_identity(), kind: EntityKind::Preview }
}

/// The placed object that a commit makes of `preview`: the same scene at the
/// same place.
pub open spec fn snapshot(preview: Entity) -> Entity {
    Entity { scene: preview.scene, transform: preview.transform, kind: EntityKind::Placed }
}

/// The point that lies `STANDOFF` world units in front of the camera.
pub open spec fn standoff_point(cam: CameraTransform) -> Vec3 {
    cam.translation.spec_offset(cam.forward, STANDOFF as int)
}

/// Where the preview stands after a frame: at the grid point nearest to the
/// standoff point, whatever its position was, and turned on from its rotation
/// by the wheel's line-unit travel.
pub open spec fn tracked_transform(
    current: Transform,
    cam: CameraTransform,
    grid_size: int,
    scroll: Seq<MouseWheel>,
) -> Transform {
    Transform {
        translation: standoff_point(cam).spec_round_to_step(grid_size),
        rotation: wrap_angle(current.rotation + YAW_PER_SCROLL_UNIT * line_scroll(scroll)) as i64,
    }
}

/// `entity` after a frame of tracking: a preview follows the camera, anything
/// else stays.
pub open spec fn tracked_entity(
    entity: Entity,
    cam: CameraTransform,
    grid_size: int,
    scroll: Seq<MouseWheel>,
) -> Entity {
    if entity.kind == EntityKind::Preview {
        Entity {
            scene: entity.scene,
            transform: tracked_transform(entity.transform, cam, grid_size, scroll),
            kind: EntityKind::Preview,
        }
    } else {
        entity
    }
}

/// The world after a frame of tracking. The preview is updated only where
/// there is exactly one.
pub open spec fn tracked_entities(
    entities: Seq<Entity>,
    cam: CameraTransform,
    grid_size: int,
    scroll: Seq<MouseWheel>,
) -> Seq<Entity> {
    if preview_count(entities) == 1 {
        Seq::new(
            entities.len(),
            |index: int| tracked_entity(entities[index], cam, grid_size, scroll),
        )
    } else {
        entities
    }
}

/// The world after a commit is asked for: a snapshot of the oldest preview is
/// added behind everything else. Without a preview nothing happens.
pub open spec fn committed_entities(entities: Seq<Entity>) -> Seq<Entity> {
    match first_preview(entities) {
        Some(preview) => entities.push(snapshot(preview)),
        None => entities,
    }
}

/// What the placement engine does in a frame of a building session.
pub enum SessionStep {
    /// `building_system` in a frame in which the primary button went down.
    Commit,
    /// `update_preview_building_position` with this camera, grid and wheel
    /// travel.
    Track { cam: CameraTransform, grid_size: int, scroll: Seq<MouseWheel> },
}

/// The world after `step`.
pub open spec fn stepped(entities: Seq<Entity>, step: SessionStep) -> Seq<Entity> {
    match step {
        SessionStep::Commit => committed_entities(entities),
        SessionStep::Track { cam, grid_size, scroll } => tracked_entities(
            entities,
            cam,
            grid_size,
            scroll,
        ),
    }
}

/// The world after the `steps` of a session, one after the other.
pub open spec fn session(entities: Seq<Entity>, steps: Seq<SessionStep>) -> Seq<Entity>
    decreases steps.len(),
{
    if steps.len() == 0 {
        entities
    } else {
        stepped(session(entities, steps.drop_last()), steps.last())
    }
}

/// The number of commits among `steps`.
pub open spec fn commits(steps: Seq<SessionStep>) -> nat
    decreases steps.len(),
{
    if steps.len() == 0 {
        0
    } else {
        commits(steps.drop_last()) + if steps.last() is Commit {
            1nat
        } else {
            0nat
        }
    }
}

/// A call of the placement engine that makes or removes an entity.
pub enum PlacementCall {
    /// `enter_building_mode` with this pending selection.
    Enter(PreviewBuildingHandle),
    /// `building_system` in a frame in which the primary button went down.
    Commit,
    /// `exit_building_mode`.
    Exit,
}

/// The world after `call`.
pub open spec fn called(entities: Seq<Entity>, call: PlacementCall) -> Seq<Entity> {
    match call {
        PlacementCall::Enter(selection) => match selection.0 {
            Some(scene) => entities.push(fresh_preview(scene)),
            None => entities,
        },
        PlacementCall::Commit => committed_entities(entities),
        PlacementCall::Exit => placed_objects(entities),
    }
}

/// The world after `calls`, one after the other.
pub open spec fn called_all(entities: Seq<Entity>, calls: Seq<PlacementCall>) -> Seq<Entity>
    decreases calls.len(),
{
    if calls.len() == 0 {
        entities
    } else {
        called(called_all(entities, calls.drop_last()), calls.last())
    }
}

/// Whether every call among `calls` that spawns a preview finds the world
/// without one, as it does where building is entered only after it was left.
pub open spec fn enters_when_clear(entities: Seq<Entity>, calls: Seq<PlacementCall>) -> bool {
    forall|index: int|
        0 <= index < calls.len() && (#[trigger] calls[index] matches PlacementCall::Enter(
            selection,
        ) && selection.0.is_some()) ==> preview_count(
            called_all(entities, calls.take(index)),
        ) == 0
}

/// At most one preview entity exists after any run of calls that starts
/// with at most one and enters building only when none is there.
pub proof fn lemma_at_most_one_preview(entities: Seq<Entity>, calls: Seq<PlacementCall>)
    requires
        preview_count(entities) <= 1,
        enters_when_clear(entities, calls),
    ensures
        preview_count(called_all(entities, calls)) <= 1,
    decreases calls.len(),
{
    if calls.len() > 0 {
        let earlier = calls.drop_last();
        assert forall|index: int|
            0 <= index < earlier.len() && (#[trigger] earlier[index] matches PlacementCall::Enter(
                selection,
            ) && selection.0.is_some()) implies preview_count(
            called_all(entities, earlier.take(index)),
        ) == 0 by {
            assert(earlier[index] == calls[index]);
            assert(earlier.take(index) == calls.take(index));
        }
        lemma_at_most_one_preview(entities, earlier);
        let before = called_all(entities, earlier);
        match calls.last() {
            PlacementCall::Enter(selection) => {
                match selection.0 {
                    Some(scene) => {
                        assert(calls[calls.len() - 1] == calls.last());
                        assert(calls.take(calls.len() - 1) == earlier);
                        lemma_push(before, fresh_preview(scene));
                    },
                    None => {},
                }
            },
            PlacementCall::Commit => {
                match first_preview(before) {
                    Some(preview) => lemma_push(before, snapshot(preview)),
                    None => {},
                }
            },
            PlacementCall::Exit => {
                lemma_placed_objects(before);
            },
        }
    }
}

/// Adding an entity adds one to the previews if it is one, and to the placed
/// objects if it is one; it changes nothing else.
pub proof fn lemma_push(entities: Seq<Entity>, entity: Entity)
    ensures
        preview_count(entities.push(entity)) == preview_count(entities) + if entity.kind
            == EntityKind::Preview {
            1nat
        } else {
            0nat
        },
        placed_objects(entities.push(entity)) == if entity.kind == EntityKind::Placed {
            placed_objects(entities).push(entity)
        } else {
            placed_objects(entities)
        },
{
    assert(entities.push(entity).drop_last() == entities);
}

/// There is no preview exactly where no entity is one.
pub proof fn lemma_no_preview(entities: Seq<Entity>)
    ensures
        preview_count(entities) == 0 <==> forall|index: int|
            0 <= index < entities.len() ==> (#[trigger] entities[index]).kind
                != EntityKind::Preview,
    decreases entities.len(),
{
    if entities.len() > 0 {
        let rest = entities.drop_last();
        lemma_no_preview(rest);
        assert(forall|index: int| 0 <= index < rest.len() ==> rest[index] == entities[index]);
        if preview_count(entities) == 0 {
            assert forall|index: int| 0 <= index < entities.len() implies (
            #[trigger] entities[index]).kind != EntityKind::Preview by {
                if index < rest.len() {
                    assert(rest[index] == entities[index]);
                }
            }
        }
        if forall|index: int|
            0 <= index < entities.len() ==> (#[trigger] entities[index]).kind
                != EntityKind::Preview {
            assert(entities.last() == entities[entities.len() - 1]);
            assert forall|index: int| 0 <= index < rest.len() implies (#[trigger] rest[index]).kind
                != EntityKind::Preview by {
                assert(rest[index] == entities[index]);
            }
        }
    }
}

/// Where there is exactly one preview, no other entity is one.
pub proof fn lemma_sole_preview(entities: Seq<Entity>, sole: int)
    requires
        preview_count(entities) == 1,
        0 <= sole < entities.len(),
        entities[sole].kind == EntityKind::Preview,
    ensures
        forall|index: int|
            0 <= index < entities.len() && index != sole ==> (#[trigger] entities[index]).kind
                != EntityKind::Preview,
    decreases entities.len(),
{
    let rest = entities.drop_last();
    assert(forall|index: int| 0 <= index < rest.len() ==> rest[index] == entities[index]);
    if entities.last().kind == EntityKind::Preview {
        lemma_no_preview(rest);
        if sole < rest.len() {
            assert(rest[sole].kind == EntityKind::Preview);
        }
        assert forall|index: int| 0 <= index < entities.len() && index != sole implies (
        #[trigger] entities[index]).kind != EntityKind::Preview by {
            assert(rest[index] == entities[index]);
        }
    } else {
        lemma_sole_preview(rest, sole);
        assert forall|index: int| 0 <= index < entities.len() && index != sole implies (
        #[trigger] entities[index]).kind != EntityKind::Preview by {
            if index < rest.len() {
                assert(rest[index] == entities[index]);
            }
        }
    }
}

/// There is an oldest preview exactly where there is a preview at all, and
/// it is a preview.
pub proof fn lemma_first_preview(entities: Seq<Entity>)
    ensures
        first_preview(entities).is_some() <==> preview_count(entities) > 0,
        first_preview(entities) matches Some(preview) ==> preview.kind == EntityKind::Preview,
    decreases entities.len(),
{
    if entities.len() > 0 {
        lemma_no_preview(entities);
        let rest = entities.drop_first();
        lemma_first_preview(rest);
        lemma_no_preview(rest);
        if entities.first().kind != EntityKind::Preview {
            if preview_count(rest) == 0 {
                assert forall|index: int| 0 <= index < entities.len() implies (
                #[trigger] entities[index]).kind != EntityKind::Preview by {
                    if index > 0 {
                        assert(rest[index - 1] == entities[index]);
                    }
                }
            } else {
                let witness = choose|index: int|
                    0 <= index < rest.len() && (#[trigger] rest[index]).kind
                        == EntityKind::Preview;
                assert(entities[witness + 1] == rest[witness]);
            }
        }
    }
}

/// Placed objects hold no preview, and are all of them placed objects.
pub proof fn lemma_placed_objects(entities: Seq<Entity>)
    ensures
        preview_count(placed_objects(entities)) == 0,
        placed_objects(placed_objects(entities)) == placed_objects(entities),
        placed_objects(entities).len() + preview_count(entities) == entities.len(),
    decreases entities.len(),
{
    if entities.len() > 0 {
        lemma_placed_objects(entities.drop_last());
        if entities.last().kind == EntityKind::Placed {
            lemma_push(placed_objects(entities.drop_last()), entities.last());
        }
    }
}

/// Tracking moves previews only: it keeps their number, and the placed
/// objects as they are.
pub proof fn lemma_tracking_keeps_the_rest(
    entities: Seq<Entity>,
    cam: CameraTransform,
    grid_size: int,
    scroll: Seq<MouseWheel>,
)
    ensures
        preview_count(tracked_entities(entities, cam, grid_size, scroll)) == preview_count(
            entities,
        ),
        placed_objects(tracked_entities(entities, cam, grid_size, scroll)) == placed_objects(
            entities,
        ),
        tracked_entities(entities, cam, grid_size, scroll).len() == entities.len(),
{
    if preview_count(entities) == 1 {
        lemma_tracking_each(entities, cam, grid_size, scroll);
    }
}

proof fn lemma_tracking_each(
    entities: Seq<Entity>,
    cam: CameraTransform,
    grid_size: int,
    scroll: Seq<MouseWheel>,
)
    ensures
        preview_count(
            Seq::new(
                entities.len(),
                |index: int| tracked_entity(entities[index], cam, grid_size, scroll),
            ),
        ) == preview_count(entities),
        placed_objects(
            Seq::new(
                entities.len(),
                |index: int| tracked_entity(entities[index], cam, grid_size, scroll),
            ),
        ) == placed_objects(entities),
    decreases entities.len(),
{
    let updated = Seq::new(
        entities.len(),
        |index: int| tracked_entity(entities[index], cam, grid_size, scroll),
    );
    if entities.len() > 0 {
        let rest = entities.drop_last();
        lemma_tracking_each(rest, cam, grid_size, scroll);
        assert(updated.drop_last() == Seq::new(
            rest.len(),
            |index: int| tracked_entity(rest[index], cam, grid_size, scroll),
        ));
    }
}

/// A building session that has a preview yields exactly one placed object
/// for each commit, however the preview is moved in between. Every object
/// that was placed stays as it is and where it is, and the previews stay
/// previews: no placed object is one.
pub proof fn lemma_session_places_one_object_for_each_commit(
    entities: Seq<Entity>,
    steps: Seq<SessionStep>,
)
    requires
        preview_count(entities) > 0,
    ensures
        placed_objects(session(entities, steps)).len() == placed_objects(entities).len() + commits(
            steps,
        ),
        placed_objects(session(entities, steps)).subrange(
            0,
            placed_objects(entities).len() as int,
        ) == placed_objects(entities),
        preview_count(session(entities, steps)) == preview_count(entities),
        preview_count(placed_objects(session(entities, steps))) == 0,
    decreases steps.len(),
{
    lemma_placed_objects(session(entities, steps));
    if steps.len() == 0 {
        assert(placed_objects(entities).subrange(0, placed_objects(entities).len() as int)
            == placed_objects(entities));
    } else {
        lemma_session_places_one_object_for_each_commit(entities, steps.drop_last());
        let before = session(entities, steps.drop_last());
        let after = session(entities, steps);
        match steps.last() {
            SessionStep::Commit => {
                lemma_first_preview(before);
                let preview = first_preview(before).unwrap();
                lemma_push(before, snapshot(preview));
                assert(placed_objects(after).subrange(0, placed_objects(entities).len() as int)
                    == placed_objects(before).subrange(
                    0,
                    placed_objects(entities).len() as int,
                ));
            },
            SessionStep::Track { cam, grid_size, scroll } => {
                lemma_tracking_keeps_the_rest(before, cam, grid_size, scroll);
            },
        }
    }
}

/// Adding an entity behind a preview leaves the oldest preview the oldest.
pub proof fn lemma_first_preview_of_push(entities: Seq<Entity>, entity: Entity)
    requires
        first_preview(entities).is_some(),
    ensures
        first_preview(entities.push(entity)) == first_preview(entities),
    decreases entities.len(),
{
    if entities.len() > 0 {
        assert(entities.push(entity).first() == entities.first());
        if entities.first().kind != EntityKind::Preview {
            assert(entities.push(entity).drop_first() == entities.drop_first().push(entity));
            lemma_first_preview_of_push(entities.drop_first(), entity);
        }
    }
}

/// Turning the preview over one frame and then over another turns it as far
/// as one frame with the wheel travel of both.
pub proof fn lemma_rotation_accumulates(
    rotation: int,
    first: Seq<MouseWheel>,
    second: Seq<MouseWheel>,
)
    ensures
        wrap_angle(
            wrap_angle(rotation + YAW_PER_SCROLL_UNIT * line_scroll(first)) + YAW_PER_SCROLL_UNIT
                * line_scroll(second),
        ) == wrap_angle(rotation + YAW_PER_SCROLL_UNIT * line_scroll(first + second)),
{
    crate::input::lemma_line_scroll_concat(first, second);
    let one = rotation + YAW_PER_SCROLL_UNIT * line_scroll(first);
    let two = YAW_PER_SCROLL_UNIT * line_scroll(second);
    lemma_add_mod_noop(one, two, FULL_TURN as int);
    lemma_mod_twice(one, FULL_TURN as int);
    lemma_add_mod_noop(one % (FULL_TURN as int), two, FULL_TURN as int);
    assert(YAW_PER_SCROLL_UNIT * (line_scroll(first) + line_scroll(second)) == YAW_PER_SCROLL_UNIT
        * line_scroll(first) + YAW_PER_SCROLL_UNIT * line_scroll(second)) by (nonlinear_arith);
}

impl World {
    /// A world without entities.
    pub fn new() -> (world: Self)
        ensures
            world.entities@ == Seq::<Entity>::empty(),
    {
        World { entities: Vec::new() }
    }

    /// The number of preview entities.
    pub fn preview_count(&self) -> (count: usize)
        ensures
            count == preview_count(self.entities@),
    {
        let mut count: usize = 0;
        let mut index: usize = 0;
        while index < self.entities.len()
            invariant
                index <= self.entities.len(),
                count == preview_count(self.entities@.take(index as int)),
                count <= index,
            decreases self.entities.len() - index,
        {
            proof {
                assert(self.entities@.take(index as int + 1).drop_last() == self.entities@.take(
                    index as int,
                ));
            }
            if self.entities[index].kind == EntityKind::Preview {
                count += 1;
            }
            index += 1;
        }
        proof {
            assert(self.entities@.take(index as int) == self.entities@);
        }
        count
    }
}

/// Enters building: spawns the preview of the chosen piece, not yet moved.
/// Where no piece was chosen, nothing is spawned, and the result says so.
pub fn enter_building_mode(world: &mut World, preview_handle: &PreviewBuildingHandle) -> (spawned:
    bool)
    ensures
        spawned == preview_handle.0.is_some(),
        final(world).entities@ == match preview_handle.0 {
            Some(scene) => old(world).entities@.push(fresh_preview(scene)),
            None => old(world).entities@,
        },
        preview_count(final(world).entities@) == preview_count(old(world).entities@)
            + if spawned {
            1nat
        } else {
            0nat
        },
        placed_objects(final(world).entities@) == placed_objects(old(world).entities@),
{
    match preview_handle.0 {
        Some(scene) => {
            let preview = Entity {
                scene,
                transform: Transform::identity(),
                kind: EntityKind::Preview,
            };
            proof {
                lemma_push(world.entities@, preview);
            }
            world.entities.push(preview);
            true
        },
        None => false,
    }
}

/// Commits: where the primary pointer button went down in this frame and
/// there is a preview, adds a placed object that is a snapshot of it, and
/// returns that object. The preview itself stays, as does everything else.
pub fn building_system(world: &mut World, buttons: &MouseButtonInput) -> (placed: Option<Entity>)
    ensures
        final(world).entities@ == if buttons.is_just_pressed(MouseButton::Left) {
            committed_entities(old(world).entities@)
        } else {
            old(world).entities@
        },
        placed == if buttons.is_just_pressed(MouseButton::Left) {
            match first_preview(old(world).entities@) {
                Some(preview) => Some(snapshot(preview)),
                None => None,
            }
        } else {
            None
        },
        preview_count(final(world).entities@) == preview_count(old(world).entities@),
        placed_objects(final(world).entities@) == match placed {
            Some(object) => placed_objects(old(world).entities@).push(object),
            None => placed_objects(old(world).entities@),
        },
{
    if !buttons.just_pressed(MouseButton::Left) {
        return None;
    }
    proof {
        assert(world.entities@.skip(0) == world.entities@);
    }
    let mut index: usize = 0;
    while index < world.entities.len()
        invariant
            index <= world.entities.len(),
            buttons.is_just_pressed(MouseButton::Left),
            world.entities@ == old(world).entities@,
            first_preview(world.entities@) == first_preview(world.entities@.skip(index as int)),
        decreases world.entities.len() - index,
    {
        let entity = world.entities[index];
        proof {
            assert(world.entities@.skip(index as int).first() == entity);
            assert(world.entities@.skip(index as int).drop_first() == world.entities@.skip(
                index as int + 1,
            ));
        }
        if entity.kind == EntityKind::Preview {
            let object = Entity {
                scene: entity.scene,
                transform: entity.transform,
                kind: EntityKind::Placed,
            };
            proof {
                assert(first_preview(world.entities@.skip(index as int)) == Some(entity));
                lemma_push(world.entities@, object);
            }
            world.entities.push(object);
            return Some(object);
        }
        index += 1;
    }
    None
}

/// Tracks: where there is exactly one preview, puts it at the grid point
/// nearest to the point `STANDOFF` world units in front of the camera, and
/// turns it on by fifteen degrees for each line that the wheel travelled.
/// The position is computed anew each frame; the rotation carries over.
/// Wheel events that count in pixels turn nothing. Returns where the preview
/// stands now; with no preview, or more than one, nothing is done.
pub fn update_preview_building_position(
    world: &mut World,
    cam_transform: &CameraTransform,
    building_settings: &BuildingSettings,
    evr_scroll: &Vec<MouseWheel>,
) -> (moved: Option<Transform>)
    requires
        building_settings.grid_size > 0,
    ensures
        final(world).entities@ == tracked_entities(
            old(world).entities@,
            *cam_transform,
            building_settings.grid_size as int,
            evr_scroll@,
        ),
        moved == if preview_count(old(world).entities@) == 1 {
            match first_preview(old(world).entities@) {
                Some(preview) => Some(
                    tracked_transform(
                        preview.transform,
                        *cam_transform,
                        building_settings.grid_size as int,
                        evr_scroll@,
                    ),
                ),
                None => None,
            }
        } else {
            None
        },
        preview_count(final(world).entities@) == preview_count(old(world).entities@),
        placed_objects(final(world).entities@) == placed_objects(old(world).entities@),
{
    proof {
        lemma_tracking_keeps_the_rest(
            world.entities@,
            *cam_transform,
            building_settings.grid_size as int,
            evr_scroll@,
        );
    }
    proof {
        assert(world.entities@.skip(0) == world.entities@);
    }
    let mut count: usize = 0;
    let mut found: usize = 0;
    let mut index: usize = 0;
    while index < world.entities.len()
        invariant
            index <= world.entities.len(),
            world.entities@ == old(world).entities@,
            count == preview_count(world.entities@.take(index as int)),
            count <= index,
            first_preview(world.entities@) == if count == 0 {
                first_preview(world.entities@.skip(index as int))
            } else {
                Some(world.entities@[found as int])
            },
            count > 0 ==> found < index && world.entities@[found as int].kind
                == EntityKind::Preview,
        decreases world.entities.len() - index,
    {
        proof {
            assert(world.entities@.take(index as int + 1).drop_last() == world.entities@.take(
                index as int,
            ));
            assert(world.entities@.skip(index as int).first() == world.entities@[index as int]);
            assert(world.entities@.skip(index as int).drop_first() == world.entities@.skip(
                index as int + 1,
            ));
        }
        if world.entities[index].kind == EntityKind::Preview {
            if count == 0 {
                found = index;
            }
            count += 1;
        }
        index += 1;
    }
    proof {
        assert(world.entities@.take(index as int) == world.entities@);
    }
    if count != 1 {
        return None;
    }
    let preview = world.entities[found];
    let scroll: i128 = accumulate_line_scroll(evr_scroll);
    let rotation: i64 = wrap_to_turn(
        preview.transform.rotation as i128 + (YAW_PER_SCROLL_UNIT as i128) * scroll,
    );
    let standoff_point = cam_transform.translation.offset(cam_transform.forward, STANDOFF);
    let translation = standoff_point.round_to_step(building_settings.grid_size);
    let transform = Transform { translation, rotation };
    let updated = Entity { scene: preview.scene, transform, kind: EntityKind::Preview };
    proof {
        lemma_sole_preview(world.entities@, found as int);
        assert(world.entities@.update(found as int, updated) == tracked_entities(
            old(world).entities@,
            *cam_transform,
            building_settings.grid_size as int,
            evr_scroll@,
        ));
    }
    world.entities.set(found, updated);
    Some(transform)
}

/// Leaves building: removes every preview entity, however many there are,
/// and returns their number. The placed objects stay as they are.
pub fn exit_building_mode(world: &mut World) -> (removed: usize)
    ensures
        final(world).entities@ == placed_objects(old(world).entities@),
        removed == preview_count(old(world).entities@),
        preview_count(final(world).entities@) == 0,
        placed_objects(final(world).entities@) == placed_objects(old(world).entities@),
{
    proof {
        lemma_placed_objects(world.entities@);
    }
    let mut kept: Vec<Entity> = Vec::new();
    let mut removed: usize = 0;
    let mut index: usize = 0;
    while index < world.entities.len()
        invariant
            index <= world.entities.len(),
            world.entities@ == old(world).entities@,
            kept@ == placed_objects(world.entities@.take(index as int)),
            removed == preview_count(world.entities@.take(index as int)),
            removed <= index,
        decreases world.entities.len() - index,
    {
        proof {
            assert(world.entities@.take(index as int + 1).drop_last() == world.entities@.take(
                index as int,
            ));
        }
        let entity = world.entities[index];
        match entity.kind {
            EntityKind::Placed => {
                kept.push(entity);
            },
            EntityKind::Preview => {
                removed += 1;
            },
        }
        index += 1;
    }
    proof {
        assert(world.entities@.take(index as int) == world.entities@);
    }
    world.entities = kept;
    removed
}

} // verus!
