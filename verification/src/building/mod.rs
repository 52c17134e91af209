//! Building: the catalog of pieces, the menu that chooses one, the mode
//! machine, and the placement engine that previews and commits it.

pub mod building;
pub mod building_assets;
pub mod building_menu;
pub mod plugin;

pub use building::{
    building_system, enter_building_mode, exit_building_mode, update_preview_building_position,
    Entity, EntityKind, World,
};
pub use building_assets::{
    AssetPath, AssetServer, BuildingAssets, BuildingAssetsInitBridge, BuildingAssetsPack,
    BuildingCategory, BuildingsGroup, PreviewBuildingHandle, SceneHandle,
};
pub use building_menu::{building_menu, enter_building_menu, exit_building_menu, MenuChoice};
use crate::events::Events;
use crate::input::{KeyCode, KeyboardInput};
use crate::math::LENGTH_UNIT;
use crate::state::NextState;
pub use plugin::{BuildingFrame, BuildingInput, BuildingPlugin, ModeChange};
use vstd::prelude::*;

verus! {

/// Whether the catalog has been asked for.
#[derive(Clone, Copy, Debug, PartialEq, Eq, Hash, Structural)]
pub enum BuildingReadinessState {
    Loading,
    Ready,
}

impl Default for BuildingReadinessState {
    fn default() -> (state: Self)
        ensures
            state == BuildingReadinessState::Loading,
    {
        BuildingReadinessState::Loading
    }
}

/// What the player is doing with regard to building.
#[derive(Clone, Copy, Debug, PartialEq, Eq, Hash, Structural)]
pub enum BuildingMode {
    Disabled,
    Menu,
    Building,
}

impl Default for BuildingMode {
    fn default() -> (mode: Self)
        ensures
            mode == BuildingMode::Disabled,
    {
        BuildingMode::Disabled
    }
}

/// How pieces are placed.
#[derive(Clone, Copy, Debug, PartialEq, Eq, Structural)]
pub struct BuildingSettings {
    /// The step of the grid, in length units.
    pub grid_size: i64,
}

impl BuildingSettings {
    /// A grid of a tenth of a world unit.
    pub open spec fn spec_default() -> BuildingSettings {
        BuildingSettings { grid_size: 100_000 }
    }
}

impl Default for BuildingSettings {
    fn default() -> (settings: Self)
        ensures
            settings == BuildingSettings::spec_default(),
    {
        BuildingSettings { grid_size: LENGTH_UNIT / 10 }
    }
}

/// A request to change the building mode.
#[derive(Clone, Copy, Debug, PartialEq, Eq, Structural)]
pub struct ChangeBuildingModeEvent(pub BuildingMode);

/// The mode that a tick asks for: `Building` where the `B` key went down,
/// else `Disabled` where the `N` key went down, the two keys being the
/// shortcut that goes straight between these two modes; else what the last
/// of the pending requests asks for; where there is none of these, what was
/// asked for before stands.
pub open spec fn requested_mode(
    pending: NextState<BuildingMode>,
    requests: Seq<ChangeBuildingModeEvent>,
    keys: KeyboardInput,
) -> NextState<BuildingMode> {
    if keys.is_just_pressed(KeyCode::KeyB) {
        NextState::Pending(BuildingMode::Building)
    } else if keys.is_just_pressed(KeyCode::KeyN) {
        NextState::Pending(BuildingMode::Disabled)
    } else if requests.len() > 0 {
        NextState::Pending(requests.last().0)
    } else {
        pending
    }
}

/// Asks for the whole catalog, keeps it, and asks for the `Ready` state. The
/// catalog counts as loaded as soon as it has been asked for.
pub fn load_building_assets(
    assets: &mut Option<BuildingAssets>,
    building_readiness_state: &mut NextState<BuildingReadinessState>,
    bridge: &mut BuildingAssetsInitBridge,
)
    ensures
        final(bridge).asset_server@ == old(bridge).asset_server@
            + building_assets::catalog_requests(),
        *final(assets) matches Some(catalog) && catalog@ == building_assets::catalog(
            old(bridge).asset_server@.len() as int,
        ),
        *final(building_readiness_state) == NextState::Pending(BuildingReadinessState::Ready),
{
    *assets = Some(BuildingAssets::load_all(bridge));
    building_readiness_state.set(BuildingReadinessState::Ready);
}

/// Takes up what the player asked for in this tick: every pending request,
/// in the order of submission, each replacing the one before, and then the
/// keys of the shortcut, which replace them all: `B` goes straight to
/// `Building`, `N` straight to `Disabled`. What comes out waits in
/// `building_mode_state` for the next tick.
pub fn building_watchdog_system(
    ev_switch_mode: &mut Events<ChangeBuildingModeEvent>,
    building_mode_state: &mut NextState<BuildingMode>,
    keys: &KeyboardInput,
)
    ensures
        final(ev_switch_mode)@.len() == 0,
        *final(building_mode_state) == requested_mode(
            *old(building_mode_state),
            old(ev_switch_mode)@,
            *keys,
        ),
{
    let requests = ev_switch_mode.drain();
    let mut index: usize = 0;
    while index < requests.len()
        invariant
            index <= requests.len(),
            *building_mode_state == if index == 0 {
                *old(building_mode_state)
            } else {
                NextState::Pending(requests@[index - 1].0)
            },
        decreases requests.len() - index,
    {
        match requests[index].0 {
            BuildingMode::Menu => building_mode_state.set(BuildingMode::Menu),
            BuildingMode::Building => building_mode_state.set(BuildingMode::Building),
            BuildingMode::Disabled => building_mode_state.set(BuildingMode::Disabled),
        }
        index += 1;
    }

    if keys.just_pressed(KeyCode::KeyB) {
        building_mode_state.set(BuildingMode::Building);
    } else if keys.just_pressed(KeyCode::KeyN) {
        building_mode_state.set(BuildingMode::Disabled);
    }
}

} // verus!
