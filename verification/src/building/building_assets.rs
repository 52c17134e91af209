use crate::math::Vec3;
use vstd::prelude::*;

verus! {

/// A reference to something that was asked of the asset server: the place of
/// the request among all requests made. It can be used at once; whether and
/// when the asset itself arrives is the server's business.
#[derive(Clone, Copy, Debug, PartialEq, Eq, Hash, Structural)]
pub struct SceneHandle {
    pub index: usize,
}

/// The piece that the next building session places, if one was chosen.
#[derive(Clone, Copy, Debug, PartialEq, Eq, Structural)]
pub struct PreviewBuildingHandle(pub Option<SceneHandle>);

impl Default for PreviewBuildingHandle {
    fn default() -> (handle: Self)
        ensures
            handle.0.is_none(),
    {
        PreviewBuildingHandle(None)
    }
}

/// What to load: a scene of a model file, by its number.
#[derive(Clone, Debug, PartialEq, Eq)]
pub struct AssetPath {
    pub path: String,
    pub scene: u32,
}

/// An asset path as a value.
pub struct AssetPathView {
    pub path: Seq<char>,
    pub scene: u32,
}

impl View for AssetPath {
    type V = AssetPathView;

    open spec fn view(&self) -> AssetPathView {
        AssetPathView { path: self.path@, scene: self.scene }
    }
}

/// The asset server, as far as the catalog deals with it: it takes requests
/// and hands out a handle for each.
#[derive(Debug)]
pub struct AssetServer {
    pub requests: Vec<AssetPath>,
}

impl View for AssetServer {
    type V = Seq<AssetPathView>;

    /// The requests made so far, oldest first.
    open spec fn view(&self) -> Seq<AssetPathView> {
        Seq::new(self.requests@.len(), |index: int| self.requests@[index]@)
    }
}

impl AssetServer {
    /// A server of which nothing was asked yet.
    pub fn new() -> (server: Self)
        ensures
            server@ == Seq::<AssetPathView>::empty(),
    {
        AssetServer { requests: Vec::new() }
    }

    /// Asks for the asset at `path` and returns at once, with a handle that
    /// names this request.
    pub fn load(&mut self, path: AssetPath) -> (handle: SceneHandle)
        ensures
            final(self)@ == old(self)@.push(path@),
            handle.index == old(self)@.len(),
    {
        let index = self.requests.len();
        self.requests.push(path);
        SceneHandle { index }
    }
}

/// What loading the catalog works on.
#[derive(Debug)]
pub struct BuildingAssetsInitBridge {
    pub asset_server: AssetServer,
}

/// One piece of the catalog: its name, its scene, and the points at which
/// other pieces attach to it.
#[derive(Clone, Debug)]
pub struct BuildingAssetsPack {
    pub name: String,
    pub scene: SceneHandle,
    pub _snap_points: Vec<Vec3>,
}

/// A piece of the catalog as a value.
pub struct BuildingAssetsPackView {
    pub name: Seq<char>,
    pub scene: SceneHandle,
    pub snap_points: Seq<Vec3>,
}

impl View for BuildingAssetsPack {
    type V = BuildingAssetsPackView;

    open spec fn view(&self) -> BuildingAssetsPackView {
        BuildingAssetsPackView {
            name: self.name@,
            scene: self.scene,
            snap_points: self._snap_points@,
        }
    }
}

impl BuildingAssetsPack {
    /// Makes a piece, asking the asset server for its scene.
    pub fn new(
        bridge: &mut BuildingAssetsInitBridge,
        name: &str,
        asset_path: AssetPath,
        snap_points: Vec<Vec3>,
    ) -> (pack: Self)
        ensures
            final(bridge).asset_server@ == old(bridge).asset_server@.push(asset_path@),
            pack@ == (BuildingAssetsPackView {
                name: name@,
                scene: SceneHandle { index: old(bridge).asset_server@.len() as usize },
                snap_points: snap_points@,
            }),
    {
        BuildingAssetsPack {
            name: name.to_owned(),
            scene: bridge.asset_server.load(asset_path),
            _snap_points: snap_points,
        }
    }
}

/// The pieces of one category, in the order in which they are shown.
#[derive(Clone, Debug)]
pub struct BuildingsGroup(pub Vec<BuildingAssetsPack>);

impl View for BuildingsGroup {
    type V = Seq<BuildingAssetsPackView>;

    open spec fn view(&self) -> Seq<BuildingAssetsPackView> {
        Seq::new(self.0@.len(), |index: int| self.0@[index]@)
    }
}

impl BuildingsGroup {
    /// A group of the given pieces.
    pub(crate) fn new(buildings: Vec<BuildingAssetsPack>) -> (group: Self)
        ensures
            group.0 == buildings,
    {
        BuildingsGroup(buildings)
    }

    /// A group without pieces.
    pub(crate) fn empty() -> (group: Self)
        ensures
            group@ == Seq::<BuildingAssetsPackView>::empty(),
    {
        Self::new(Vec::new())
    }

    /// The group with one more piece at its end.
    pub(crate) fn add(self, asset: BuildingAssetsPack) -> (group: Self)
        ensures
            group@ == self@.push(asset@),
    {
        let mut group = self;
        group.0.push(asset);
        group
    }

    /// The number of pieces.
    pub fn len(&self) -> (count: usize)
        ensures
            count == self@.len(),
    {
        self.0.len()
    }

    /// The scene of the piece at `index`, if there is one.
    pub fn scene_at(&self, index: usize) -> (scene: Option<SceneHandle>)
        ensures
            scene == if index < self@.len() {
                Some(self@[index as int].scene)
            } else {
                None::<SceneHandle>
            },
    {
        if index < self.0.len() {
            Some(self.0[index].scene)
        } else {
            None
        }
    }
}

/// The categories of the catalog.
#[derive(Clone, Copy, Debug, PartialEq, Eq, Hash, Structural)]
pub enum BuildingCategory {
    Foundation,
    Beam,
    Floor,
    Wall,
    Gable,
    Roof,
}

/// The catalog: every piece that can be placed, by category.
#[derive(Clone, Debug)]
pub struct BuildingAssets {
    pub foundation: BuildingsGroup,
    pub beam: BuildingsGroup,
    pub floor: BuildingsGroup,
    pub wall: BuildingsGroup,
    pub gable: BuildingsGroup,
    pub roof: BuildingsGroup,
}

/// The catalog as a value.
pub struct BuildingAssetsView {
    pub foundation: Seq<BuildingAssetsPackView>,
    pub beam: Seq<BuildingAssetsPackView>,
    pub floor: Seq<BuildingAssetsPackView>,
    pub wall: Seq<BuildingAssetsPackView>,
    pub gable: Seq<BuildingAssetsPackView>,
    pub roof: Seq<BuildingAssetsPackView>,
}

impl BuildingAssetsView {
    /// The pieces of `category`.
    pub open spec fn group(self, category: BuildingCategory) -> Seq<BuildingAssetsPackView> {
        match category {
            BuildingCategory::Foundation => self.foundation,
            BuildingCategory::Beam => self.beam,
            BuildingCategory::Floor => self.floor,
            BuildingCategory::Wall => self.wall,
            BuildingCategory::Gable => self.gable,
            BuildingCategory::Roof => self.roof,
        }
    }
}

impl View for BuildingAssets {
    type V = BuildingAssetsView;

    open spec fn view(&self) -> BuildingAssetsView {
        BuildingAssetsView {
            foundation: self.foundation@,
            beam: self.beam@,
            floor: self.floor@,
            wall: self.wall@,
            gable: self.gable@,
            roof: self.roof@,
        }
    }
}

/// A piece without snap points.
pub open spec fn plain_pack(name: Seq<char>, index: int) -> BuildingAssetsPackView {
    BuildingAssetsPackView {
        name,
        scene: SceneHandle { index: index as usize },
        snap_points: Seq::empty(),
    }
}

/// The requests that loading the catalog makes, in their order.
pub open spec fn catalog_requests() -> Seq<AssetPathView> {
    seq![
        AssetPathView { path: "models/floor.gltf"@, scene: 0 },
        AssetPathView { path: "models/floor.gltf"@, scene: 1 },
        AssetPathView { path: "models/wall.gltf"@, scene: 0 },
        AssetPathView { path: "models/roof.gltf"@, scene: 0 },
    ]
}

/// The catalog, loaded by a server that had `base` requests before.
pub open spec fn catalog(base: int) -> BuildingAssetsView {
    BuildingAssetsView {
        foundation: Seq::empty(),
        beam: Seq::empty(),
        floor: seq![plain_pack("Floor 2x2"@, base), plain_pack("Floor 1x1"@, base + 1)],
        wall: seq![plain_pack("Wall 2x2"@, base + 2)],
        gable: Seq::empty(),
        roof: seq![plain_pack("Roof 2x2 45"@, base + 3)],
    }
}

impl BuildingAssets {
    /// Builds the whole catalog, asking the asset server once for each piece.
    /// Nothing is waited for, and nothing can fail here: a piece whose scene
    /// never arrives is the server's to report.
    pub fn load_all(bridge: &mut BuildingAssetsInitBridge) -> (assets: Self)
        ensures
            final(bridge).asset_server@ == old(bridge).asset_server@ + catalog_requests(),
            assets@ == catalog(old(bridge).asset_server@.len() as int),
    {
        let foundation = load_group_foundation(bridge);
        let gable = load_group_gabble(bridge);
        let floor = load_group_floor(bridge);
        let beam = load_group_beam(bridge);
        let wall = load_group_wall(bridge);
        let roof = load_group_roof(bridge);

        BuildingAssets { foundation, beam, floor, wall, gable, roof }
    }

    /// The pieces of `category`.
    pub fn group(&self, category: BuildingCategory) -> (group: &BuildingsGroup)
        ensures
            group@ == self@.group(category),
    {
        match category {
            BuildingCategory::Foundation => &self.foundation,
            BuildingCategory::Beam => &self.beam,
            BuildingCategory::Floor => &self.floor,
            BuildingCategory::Wall => &self.wall,
            BuildingCategory::Gable => &self.gable,
            BuildingCategory::Roof => &self.roof,
        }
    }
}

fn scene_of(path: &str, scene: u32) -> (asset_path: AssetPath)
    ensures
        asset_path@ == (AssetPathView { path: path@, scene }),
{
    AssetPath { path: path.to_owned(), scene }
}

fn load_group_foundation(bridge: &mut BuildingAssetsInitBridge) -> (group: BuildingsGroup)
    ensures
        final(bridge).asset_server@ == old(bridge).asset_server@,
        group@ == Seq::<BuildingAssetsPackView>::empty(),
{
    BuildingsGroup::empty()
}

fn load_group_beam(bridge: &mut BuildingAssetsInitBridge) -> (group: BuildingsGroup)
    ensures
        final(bridge).asset_server@ == old(bridge).asset_server@,
        group@ == Seq::<BuildingAssetsPackView>::empty(),
{
    BuildingsGroup::empty()
}

fn load_group_floor(bridge: &mut BuildingAssetsInitBridge) -> (group: BuildingsGroup)
    ensures
        final(bridge).asset_server@ == old(bridge).asset_server@.push(
            AssetPathView { path: "models/floor.gltf"@, scene: 0 },
        ).push(AssetPathView { path: "models/floor.gltf"@, scene: 1 }),
        group@ == seq![
            plain_pack("Floor 2x2"@, old(bridge).asset_server@.len() as int),
            plain_pack("Floor 1x1"@, old(bridge).asset_server@.len() as int + 1),
        ],
{
    let large = BuildingAssetsPack::new(
        bridge,
        "Floor 2x2",
        scene_of("models/floor.gltf", 0),
        Vec::new(),
    );
    let small = BuildingAssetsPack::new(
        bridge,
        "Floor 1x1",
        scene_of("models/floor.gltf", 1),
        Vec::new(),
    );
    BuildingsGroup::empty().add(large).add(small)
}

fn load_group_wall(bridge: &mut BuildingAssetsInitBridge) -> (group: BuildingsGroup)
    ensures
        final(bridge).asset_server@ == old(bridge).asset_server@.push(
            AssetPathView { path: "models/wall.gltf"@, scene: 0 },
        ),
        group@ == seq![plain_pack("Wall 2x2"@, old(bridge).asset_server@.len() as int)],
{
    let wall = BuildingAssetsPack::new(
        bridge,
        "Wall 2x2",
        scene_of("models/wall.gltf", 0),
        Vec::new(),
    );
    BuildingsGroup::empty().add(wall)
}

fn load_group_gabble(bridge: &mut BuildingAssetsInitBridge) -> (group: BuildingsGroup)
    ensures
        final(bridge).asset_server@ == old(bridge).asset_server@,
        group@ == Seq::<BuildingAssetsPackView>::empty(),
{
    BuildingsGroup::empty()
}

fn load_group_roof(bridge: &mut BuildingAssetsInitBridge) -> (group: BuildingsGroup)
    ensures
        final(bridge).asset_server@ == old(bridge).asset_server@.push(
            AssetPathView { path: "models/roof.gltf"@, scene: 0 },
        ),
        group@ == seq![plain_pack("Roof 2x2 45"@, old(bridge).asset_server@.len() as int)],
{
    let roof = BuildingAssetsPack::new(
        bridge,
        "Roof 2x2 45",
        scene_of("models/roof.gltf", 0),
        Vec::new(),
    );
    BuildingsGroup::empty().add(roof)
}

} // verus!
