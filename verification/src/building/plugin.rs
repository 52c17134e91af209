use super::building::{
    building_system, committed_entities, enter_building_mode, exit_building_mode, first_preview,
    fresh_preview, lemma_first_preview, placed_objects, preview_count, snapshot, tracked_entities,
    tracked_transform, update_preview_building_position, Entity, World,
};
use super::building_assets::{
    BuildingAssets, BuildingAssetsInitBridge, PreviewBuildingHandle, SceneHandle,
};
use super::building_menu::{
    building_menu, chosen_scene, enter_building_menu, exit_building_menu, menu_cursor,
    play_cursor, with_cursor, MenuChoice,
};
use super::{
    building_watchdog_system, load_building_assets, requested_mode, BuildingMode,
    BuildingReadinessState, BuildingSettings, ChangeBuildingModeEvent,
};
use crate::events::Events;
use crate::input::{KeyboardInput, MouseButton, MouseButtonInput, MouseWheel};
use crate::math::{CameraTransform, Transform};
use crate::state::NextState;
use crate::universal_camera_controller::{UniCamChangeStateEvent, UniCamState};
use crate::window::Window;
use vstd::prelude::*;

verus! {

/// What the building subsystem reads in a tick.
pub struct BuildingInput {
    pub keys: KeyboardInput,
    pub buttons: MouseButtonInput,
    pub scroll: Vec<MouseWheel>,
    /// The camera's pose, after the camera controller has run for this tick.
    pub cam_transform: CameraTransform,
    /// The entry of the building menu that was clicked, if one was.
    pub clicked: Option<MenuChoice>,
}

/// A change of the building mode.
#[derive(Clone, Copy, Debug, PartialEq, Eq, Structural)]
pub struct ModeChange {
    pub exited: BuildingMode,
    pub entered: BuildingMode,
}

/// What a tick did, for whoever draws the world.
#[derive(Clone, Copy, Debug, PartialEq, Eq, Structural)]
pub struct BuildingFrame {
    /// The mode that was left and the mode that was entered, if the mode
    /// changed.
    pub transition: Option<ModeChange>,
    /// The number of preview entities that leaving `Building` removed.
    pub removed: usize,
    /// Whether entering `Building` spawned a preview. It does not where no
    /// piece was chosen.
    pub spawned: bool,
    /// The object that was placed.
    pub placed: Option<Entity>,
    /// Where the preview stands now.
    pub moved: Option<Transform>,
}

/// The building subsystem: the readiness and mode machines, the requests to
/// change the mode, the catalog, the pending selection, and the world of
/// previewed and placed pieces.
pub struct BuildingPlugin {
    pub readiness: BuildingReadinessState,
    pub next_readiness: NextState<BuildingReadinessState>,
    pub mode: BuildingMode,
    pub next_mode: NextState<BuildingMode>,
    pub settings: BuildingSettings,
    pub preview_handle: PreviewBuildingHandle,
    pub events: Events<ChangeBuildingModeEvent>,
    pub assets: Option<BuildingAssets>,
    pub world: World,
}

/// The entities after the mode went from `from` to `to`: leaving `Building`
/// removes every preview, entering it spawns the preview of the pending
/// selection, if there is one. A change from a mode to itself is none.
pub open spec fn transitioned_entities(
    entities: Seq<Entity>,
    from: BuildingMode,
    to: BuildingMode,
    selection: PreviewBuildingHandle,
) -> Seq<Entity> {
    if from == to {
        entities
    } else if from == BuildingMode::Building {
        placed_objects(entities)
    } else if to == BuildingMode::Building {
        match selection.0 {
            Some(scene) => entities.push(fresh_preview(scene)),
            None => entities,
        }
    } else {
        entities
    }
}

/// The window after the mode went from `from` to `to`: entering `Menu` frees
/// the pointer, leaving it takes the pointer back.
pub open spec fn transitioned_window(
    window: Window,
    from: BuildingMode,
    to: BuildingMode,
) -> Window {
    if from == to {
        window
    } else if to == BuildingMode::Menu {
        with_cursor(window, menu_cursor())
    } else if from == BuildingMode::Menu {
        with_cursor(window, play_cursor())
    } else {
        window
    }
}

/// What the camera controller is asked when the mode goes from `from` to
/// `to`: to stop on entering `Menu`, to go on on leaving it.
pub open spec fn transition_requests(from: BuildingMode, to: BuildingMode) -> Seq<
    UniCamChangeStateEvent,
> {
    if from == to {
        Seq::empty()
    } else if to == BuildingMode::Menu {
        seq![UniCamChangeStateEvent(UniCamState::Disabled)]
    } else if from == BuildingMode::Menu {
        seq![UniCamChangeStateEvent(UniCamState::Enabled)]
    } else {
        Seq::empty()
    }
}

/// The entities after the systems of `mode` ran: while building, a commit
/// where the primary button went down, and then tracking.
pub open spec fn worked_entities(
    entities: Seq<Entity>,
    mode: BuildingMode,
    settings: BuildingSettings,
    input: BuildingInput,
) -> Seq<Entity> {
    if mode == BuildingMode::Building {
        tracked_entities(
            if input.buttons.is_just_pressed(MouseButton::Left) {
                committed_entities(entities)
            } else {
                entities
            },
            input.cam_transform,
            settings.grid_size as int,
            input.scroll@,
        )
    } else {
        entities
    }
}

/// The scene that a click in the menu selects, if the menu is open and the
/// catalog has the piece.
pub open spec fn selected_scene(
    assets: Option<BuildingAssets>,
    mode: BuildingMode,
    clicked: Option<MenuChoice>,
) -> Option<SceneHandle> {
    match assets {
        Some(catalog) => if mode == BuildingMode::Menu {
            chosen_scene(catalog@, clicked)
        } else {
            None
        },
        None => None,
    }
}

/// The object that the systems of `mode` place: while building, a snapshot
/// of the oldest preview, where the primary button went down.
pub open spec fn placed_entity(
    entities: Seq<Entity>,
    mode: BuildingMode,
    input: BuildingInput,
) -> Option<Entity> {
    if mode == BuildingMode::Building && input.buttons.is_just_pressed(MouseButton::Left) {
        match first_preview(entities) {
            Some(preview) => Some(snapshot(preview)),
            None => None,
        }
    } else {
        None
    }
}

/// Where the systems of `mode` put the preview: while building, where
/// tracking puts it, which needs exactly one preview.
pub open spec fn moved_preview(
    entities: Seq<Entity>,
    mode: BuildingMode,
    settings: BuildingSettings,
    input: BuildingInput,
) -> Option<Transform> {
    match first_preview(entities) {
        Some(preview) => if mode == BuildingMode::Building && preview_count(entities) == 1 {
            Some(
                tracked_transform(
                    preview.transform,
                    input.cam_transform,
                    settings.grid_size as int,
                    input.scroll@,
                ),
            )
        } else {
            None
        },
        None => None,
    }
}

/// The entities after a whole tick that goes from the mode `from` to the
/// mode `to`: the transition, then the systems of `to`.
pub open spec fn ticked_entities(
    entities: Seq<Entity>,
    from: BuildingMode,
    to: BuildingMode,
    selection: PreviewBuildingHandle,
    settings: BuildingSettings,
    input: BuildingInput,
) -> Seq<Entity> {
    worked_entities(transitioned_entities(entities, from, to, selection), to, settings, input)
}

/// What a tick does to the number of previews and to the placed objects:
/// only the transition changes the number of previews, and only a commit
/// adds a placed object.
proof fn lemma_tick(
    entities: Seq<Entity>,
    from: BuildingMode,
    to: BuildingMode,
    selection: PreviewBuildingHandle,
    settings: BuildingSettings,
    input: BuildingInput,
)
    ensures
        placed_objects(transitioned_entities(entities, from, to, selection)) == placed_objects(
            entities,
        ),
        preview_count(transitioned_entities(entities, from, to, selection)) == if from == to {
            preview_count(entities)
        } else if from == BuildingMode::Building {
            0nat
        } else if to == BuildingMode::Building && selection.0.is_some() {
            preview_count(entities) + 1
        } else {
            preview_count(entities)
        },
        preview_count(ticked_entities(entities, from, to, selection, settings, input))
            == preview_count(transitioned_entities(entities, from, to, selection)),
        placed_objects(ticked_entities(entities, from, to, selection, settings, input))
            == match placed_entity(transitioned_entities(entities, from, to, selection), to, input) {
            Some(object) => placed_objects(entities).push(object),
            None => placed_objects(entities),
        },
{
    let entered = transitioned_entities(entities, from, to, selection);
    super::building::lemma_placed_objects(entities);
    match selection.0 {
        Some(scene) => super::building::lemma_push(entities, fresh_preview(scene)),
        None => {},
    }
    if to == BuildingMode::Building {
        let committed = if input.buttons.is_just_pressed(MouseButton::Left) {
            committed_entities(entered)
        } else {
            entered
        };
        match first_preview(entered) {
            Some(preview) => super::building::lemma_push(entered, snapshot(preview)),
            None => {},
        }
        super::building::lemma_tracking_keeps_the_rest(
            committed,
            input.cam_transform,
            settings.grid_size as int,
            input.scroll@,
        );
    }
}

/// There is at most one preview entity, and none outside `Building`, after a
/// tick if it was so before: whatever modes the tick goes between, whatever
/// was selected, and whatever the player did.
pub proof fn lemma_one_preview_at_most(
    entities: Seq<Entity>,
    from: BuildingMode,
    to: BuildingMode,
    selection: PreviewBuildingHandle,
    settings: BuildingSettings,
    input: BuildingInput,
)
    requires
        preview_count(entities) <= 1,
        from != BuildingMode::Building ==> preview_count(entities) == 0,
    ensures
        preview_count(ticked_entities(entities, from, to, selection, settings, input)) <= 1,
        to != BuildingMode::Building ==> preview_count(
            ticked_entities(entities, from, to, selection, settings, input),
        ) == 0,
{
    lemma_tick(entities, from, to, selection, settings, input);
}

/// The placed objects of before a tick are there after it, unchanged and in
/// their places; at most one is added behind them, and only by a commit.
pub proof fn lemma_placed_objects_stay(
    entities: Seq<Entity>,
    from: BuildingMode,
    to: BuildingMode,
    selection: PreviewBuildingHandle,
    settings: BuildingSettings,
    input: BuildingInput,
)
    ensures
        placed_objects(ticked_entities(entities, from, to, selection, settings, input))
            == match placed_entity(transitioned_entities(entities, from, to, selection), to, input) {
            Some(object) => placed_objects(entities).push(object),
            None => placed_objects(entities),
        },
{
    lemma_tick(entities, from, to, selection, settings, input);
}

impl BuildingPlugin {
    /// What holds of the subsystem between ticks: the grid has a step; there
    /// is at most one preview entity, and none outside `Building`; and the
    /// catalog is there once the state is `Ready`, which is never left.
    pub open spec fn wf(&self) -> bool {
        &&& self.settings.grid_size > 0
        &&& preview_count(self.world.entities@) <= 1
        &&& self.mode != BuildingMode::Building ==> preview_count(self.world.entities@) == 0
        &&& self.readiness == BuildingReadinessState::Ready ==> self.assets.is_some()
        &&& self.next_readiness == NextState::Pending(BuildingReadinessState::Ready)
            ==> self.assets.is_some()
        &&& self.next_readiness != NextState::Pending(BuildingReadinessState::Loading)
    }

    /// The readiness in which a tick runs: the requested one where a request
    /// waits, else the one before.
    pub open spec fn entered_readiness(&self) -> BuildingReadinessState {
        match self.next_readiness {
            NextState::Pending(state) => state,
            NextState::Unchanged => self.readiness,
        }
    }

    /// The mode in which a tick runs: the requested one where a request
    /// waits, else the one before.
    pub open spec fn entered_mode(&self) -> BuildingMode {
        match self.next_mode {
            NextState::Pending(mode) => mode,
            NextState::Unchanged => self.mode,
        }
    }

    /// The scene that a click in the menu selects in this tick, if the menu
    /// is open and the catalog has the piece.
    pub open spec fn selected(&self, clicked: Option<MenuChoice>) -> Option<SceneHandle> {
        selected_scene(self.assets, self.mode, clicked)
    }

    /// Whether the subsystem is as it has to be between ticks.
    pub fn is_well_formed(&self) -> (sound: bool)
        ensures
            sound == self.wf(),
    {
        let previews = self.world.preview_count();
        let ready = match self.readiness {
            BuildingReadinessState::Ready => true,
            BuildingReadinessState::Loading => false,
        };
        let building = match self.mode {
            BuildingMode::Building => true,
            _ => false,
        };
        let catalog_in_time = match self.next_readiness {
            NextState::Pending(BuildingReadinessState::Ready) => self.assets.is_some(),
            NextState::Pending(BuildingReadinessState::Loading) => false,
            NextState::Unchanged => true,
        };
        self.settings.grid_size > 0 && previews <= 1 && (building || previews == 0) && (!ready
            || self.assets.is_some()) && catalog_in_time
    }

    /// The subsystem as it starts: loading, disabled, an empty world, no
    /// piece chosen, nothing requested.
    pub fn build() -> (plugin: Self)
        ensures
            plugin.wf(),
            plugin.readiness == BuildingReadinessState::Loading,
            plugin.next_readiness == NextState::<BuildingReadinessState>::Unchanged,
            plugin.mode == BuildingMode::Disabled,
            plugin.next_mode == NextState::<BuildingMode>::Unchanged,
            plugin.settings == BuildingSettings::spec_default(),
            plugin.preview_handle.0.is_none(),
            plugin.events@.len() == 0,
            plugin.assets.is_none(),
            plugin.world.entities@.len() == 0,
    {
        BuildingPlugin {
            readiness: BuildingReadinessState::default(),
            next_readiness: NextState::Unchanged,
            mode: BuildingMode::default(),
            next_mode: NextState::Unchanged,
            settings: BuildingSettings::default(),
            preview_handle: PreviewBuildingHandle::default(),
            events: Events::new(),
            assets: None,
            world: World::new(),
        }
    }

    /// The entry action of `Loading`: asks for the catalog and for the
    /// `Ready` state. It acts once; on a subsystem that has its catalog it
    /// does nothing.
    pub fn startup(&mut self, bridge: &mut BuildingAssetsInitBridge)
        requires
            old(self).wf(),
        ensures
            final(self).wf(),
            final(self).assets.is_some(),
            old(self).assets.is_some() ==> {
                &&& final(self).assets == old(self).assets
                &&& final(self).next_readiness == old(self).next_readiness
                &&& final(bridge).asset_server@ == old(bridge).asset_server@
            },
            old(self).assets.is_none() ==> {
                &&& final(self).assets.unwrap()@ == super::building_assets::catalog(
                    old(bridge).asset_server@.len() as int,
                )
                &&& final(self).next_readiness == NextState::Pending(
                    BuildingReadinessState::Ready,
                )
                &&& final(bridge).asset_server@ == old(bridge).asset_server@
                    + super::building_assets::catalog_requests()
            },
            final(self).readiness == old(self).readiness,
            final(self).mode == old(self).mode,
            final(self).next_mode == old(self).next_mode,
            final(self).settings == old(self).settings,
            final(self).preview_handle == old(self).preview_handle,
            final(self).events@ == old(self).events@,
            final(self).world.entities@ == old(self).world.entities@,
    {
        if self.assets.is_none() {
            load_building_assets(&mut self.assets, &mut self.next_readiness, bridge);
        }
    }

    /// The first half of a tick: enters the states that were requested in an
    /// earlier tick. A mode that changes runs the exit hook of the mode that
    /// is left and then the entry hook of the mode that is entered, each
    /// once; a request for the mode that is active already runs none.
    pub fn apply_state_transitions(
        &mut self,
        window: &mut Window,
        camera_events: &mut Events<UniCamChangeStateEvent>,
    ) -> (frame: BuildingFrame)
        requires
            old(self).wf(),
        ensures
            final(self).wf(),
            final(self).readiness == old(self).entered_readiness(),
            final(self).next_readiness == NextState::<BuildingReadinessState>::Unchanged,
            final(self).mode == old(self).entered_mode(),
            final(self).next_mode == NextState::<BuildingMode>::Unchanged,
            final(self).world.entities@ == transitioned_entities(
                old(self).world.entities@,
                old(self).mode,
                old(self).entered_mode(),
                old(self).preview_handle,
            ),
            placed_objects(final(self).world.entities@) == placed_objects(
                old(self).world.entities@,
            ),
            *final(window) == transitioned_window(
                *old(window),
                old(self).mode,
                old(self).entered_mode(),
            ),
            final(camera_events)@ == old(camera_events)@ + transition_requests(
                old(self).mode,
                old(self).entered_mode(),
            ),
            final(self).settings == old(self).settings,
            final(self).preview_handle == old(self).preview_handle,
            final(self).events@ == old(self).events@,
            final(self).assets == old(self).assets,
            frame.transition == if old(self).mode == old(self).entered_mode() {
                None
            } else {
                Some(ModeChange { exited: old(self).mode, entered: old(self).entered_mode() })
            },
            frame.removed == if old(self).mode == BuildingMode::Building && final(self).mode
                != BuildingMode::Building {
                preview_count(old(self).world.entities@)
            } else {
                0nat
            },
            frame.spawned == (old(self).mode != BuildingMode::Building && final(self).mode
                == BuildingMode::Building && old(self).preview_handle.0.is_some()),
            frame.placed.is_none(),
            frame.moved.is_none(),
    {
        let mut frame = BuildingFrame {
            transition: None,
            removed: 0,
            spawned: false,
            placed: None,
            moved: None,
        };
        proof {
            super::building::lemma_placed_objects(self.world.entities@);
            super::building::lemma_placed_objects(placed_objects(self.world.entities@));
            assert(old(camera_events)@ + Seq::<UniCamChangeStateEvent>::empty() == old(
                camera_events,
            )@);
        }
        match self.next_readiness.take() {
            Some(state) => {
                self.readiness = state;
            },
            None => {},
        }
        match self.next_mode.take() {
            Some(entered) => {
                let exited = self.mode;
                if entered != exited {
                    match exited {
                        BuildingMode::Menu => exit_building_menu(window, camera_events),
                        BuildingMode::Building => {
                            frame.removed = exit_building_mode(&mut self.world);
                        },
                        BuildingMode::Disabled => {},
                    }
                    self.mode = entered;
                    match entered {
                        BuildingMode::Menu => enter_building_menu(window, camera_events),
                        BuildingMode::Building => {
                            frame.spawned = enter_building_mode(
                                &mut self.world,
                                &self.preview_handle,
                            );
                        },
                        BuildingMode::Disabled => {},
                    }
                    frame.transition = Some(ModeChange { exited, entered });
                    proof {
                        assert(old(camera_events)@.push(
                            UniCamChangeStateEvent(UniCamState::Enabled),
                        ) == old(camera_events)@ + seq![
                            UniCamChangeStateEvent(UniCamState::Enabled),
                        ]);
                        assert(old(camera_events)@.push(
                            UniCamChangeStateEvent(UniCamState::Disabled),
                        ) == old(camera_events)@ + seq![
                            UniCamChangeStateEvent(UniCamState::Disabled),
                        ]);
                    }
                }
            },
            None => {},
        }
        frame
    }

    /// The second half of a tick: the systems of the states that the tick
    /// runs in. Once the catalog is ready, the watchdog takes up the requests
    /// to change the mode, for the next tick. Then, while the menu is open, a
    /// click selects a piece and asks for building; and while building, a
    /// press of the primary button commits the preview, and the preview
    /// follows the camera.
    pub fn run_systems(&mut self, input: &BuildingInput) -> (frame: BuildingFrame)
        requires
            old(self).wf(),
        ensures
            final(self).wf(),
            final(self).readiness == old(self).readiness,
            final(self).next_readiness == old(self).next_readiness,
            final(self).mode == old(self).mode,
            final(self).next_mode == if old(self).readiness == BuildingReadinessState::Ready {
                requested_mode(old(self).next_mode, old(self).events@, input.keys)
            } else {
                old(self).next_mode
            },
            final(self).events@ == if old(self).readiness == BuildingReadinessState::Ready {
                Seq::<ChangeBuildingModeEvent>::empty()
            } else {
                old(self).events@
            } + if old(self).selected(input.clicked).is_some() {
                seq![ChangeBuildingModeEvent(BuildingMode::Building)]
            } else {
                Seq::<ChangeBuildingModeEvent>::empty()
            },
            final(self).preview_handle.0 == match old(self).selected(input.clicked) {
                Some(scene) => Some(scene),
                None => old(self).preview_handle.0,
            },
            final(self).world.entities@ == worked_entities(
                old(self).world.entities@,
                old(self).mode,
                old(self).settings,
                *input,
            ),
            preview_count(final(self).world.entities@) == preview_count(
                old(self).world.entities@,
            ),
            placed_objects(final(self).world.entities@) == match frame.placed {
                Some(object) => placed_objects(old(self).world.entities@).push(object),
                None => placed_objects(old(self).world.entities@),
            },
            final(self).settings == old(self).settings,
            final(self).assets == old(self).assets,
            frame.transition.is_none(),
            frame.removed == 0,
            !frame.spawned,
            frame.placed == placed_entity(old(self).world.entities@, old(self).mode, *input),
            frame.moved == moved_preview(
                old(self).world.entities@,
                old(self).mode,
                old(self).settings,
                *input,
            ),
    {
        let mut frame = BuildingFrame {
            transition: None,
            removed: 0,
            spawned: false,
            placed: None,
            moved: None,
        };
        proof {
            lemma_first_preview(self.world.entities@);
            assert(Seq::<ChangeBuildingModeEvent>::empty() + seq![
                ChangeBuildingModeEvent(BuildingMode::Building),
            ] == Seq::<ChangeBuildingModeEvent>::empty().push(
                ChangeBuildingModeEvent(BuildingMode::Building),
            ));
            assert(old(self).events@ + seq![ChangeBuildingModeEvent(BuildingMode::Building)]
                == old(self).events@.push(ChangeBuildingModeEvent(BuildingMode::Building)));
            assert(old(self).events@ + Seq::<ChangeBuildingModeEvent>::empty() == old(
                self,
            ).events@);
            assert(Seq::<ChangeBuildingModeEvent>::empty() + Seq::<
                ChangeBuildingModeEvent,
            >::empty() == Seq::<ChangeBuildingModeEvent>::empty());
        }
        match self.readiness {
            BuildingReadinessState::Ready => {
                building_watchdog_system(&mut self.events, &mut self.next_mode, &input.keys);
            },
            BuildingReadinessState::Loading => {},
        }
        match self.mode {
            BuildingMode::Menu => {
                match &self.assets {
                    Some(assets) => {
                        building_menu(
                            assets,
                            &mut self.events,
                            &mut self.preview_handle,
                            input.clicked,
                        );
                    },
                    None => {},
                }
            },
            BuildingMode::Building => {
                frame.placed = building_system(&mut self.world, &input.buttons);
                proof {
                    let committed = self.world.entities@;
                    if frame.placed.is_some() {
                        let preview = first_preview(old(self).world.entities@).unwrap();
                        super::building::lemma_first_preview_of_push(
                            old(self).world.entities@,
                            snapshot(preview),
                        );
                    }
                    lemma_first_preview(committed);
                }
                frame.moved = update_preview_building_position(
                    &mut self.world,
                    &input.cam_transform,
                    &self.settings,
                    &input.scroll,
                );
            },
            BuildingMode::Disabled => {},
        }
        frame
    }

    /// One tick: the state transitions, then the systems.
    pub fn update(
        &mut self,
        input: &BuildingInput,
        window: &mut Window,
        camera_events: &mut Events<UniCamChangeStateEvent>,
    ) -> (frame: BuildingFrame)
        requires
            old(self).wf(),
        ensures
            final(self).wf(),
            old(self).readiness == BuildingReadinessState::Ready ==> final(self).readiness
                == BuildingReadinessState::Ready,
            final(self).readiness == old(self).entered_readiness(),
            final(self).next_readiness == NextState::<BuildingReadinessState>::Unchanged,
            final(self).mode == old(self).entered_mode(),
            final(self).next_mode == if final(self).readiness == BuildingReadinessState::Ready {
                requested_mode(NextState::Unchanged, old(self).events@, input.keys)
            } else {
                NextState::Unchanged
            },
            final(self).world.entities@ == ticked_entities(
                old(self).world.entities@,
                old(self).mode,
                old(self).entered_mode(),
                old(self).preview_handle,
                old(self).settings,
                *input,
            ),
            placed_objects(final(self).world.entities@) == match frame.placed {
                Some(object) => placed_objects(old(self).world.entities@).push(object),
                None => placed_objects(old(self).world.entities@),
            },
            *final(window) == transitioned_window(
                *old(window),
                old(self).mode,
                old(self).entered_mode(),
            ),
            final(camera_events)@ == old(camera_events)@ + transition_requests(
                old(self).mode,
                old(self).entered_mode(),
            ),
            final(self).events@ == if final(self).readiness == BuildingReadinessState::Ready {
                Seq::<ChangeBuildingModeEvent>::empty()
            } else {
                old(self).events@
            } + if selected_scene(old(self).assets, final(self).mode, input.clicked).is_some() {
                seq![ChangeBuildingModeEvent(BuildingMode::Building)]
            } else {
                Seq::<ChangeBuildingModeEvent>::empty()
            },
            final(self).preview_handle.0 == match selected_scene(
                old(self).assets,
                final(self).mode,
                input.clicked,
            ) {
                Some(scene) => Some(scene),
                None => old(self).preview_handle.0,
            },
            final(self).settings == old(self).settings,
            final(self).assets == old(self).assets,
            frame.transition == if old(self).mode == old(self).entered_mode() {
                None
            } else {
                Some(ModeChange { exited: old(self).mode, entered: old(self).entered_mode() })
            },
            frame.removed == if old(self).mode == BuildingMode::Building && final(self).mode
                != BuildingMode::Building {
                preview_count(old(self).world.entities@)
            } else {
                0nat
            },
            frame.spawned == (old(self).mode != BuildingMode::Building && final(self).mode
                == BuildingMode::Building && old(self).preview_handle.0.is_some()),
            frame.placed == placed_entity(
                transitioned_entities(
                    old(self).world.entities@,
                    old(self).mode,
                    old(self).entered_mode(),
                    old(self).preview_handle,
                ),
                final(self).mode,
                *input,
            ),
            frame.moved == moved_preview(
                transitioned_entities(
                    old(self).world.entities@,
                    old(self).mode,
                    old(self).entered_mode(),
                    old(self).preview_handle,
                ),
                final(self).mode,
                old(self).settings,
                *input,
            ),
    {
        let entered = self.apply_state_transitions(window, camera_events);
        let worked = self.run_systems(input);
        BuildingFrame {
            transition: entered.transition,
            removed: entered.removed,
            spawned: entered.spawned,
            placed: worked.placed,
            moved: worked.moved,
        }
    }
}

} // verus!
