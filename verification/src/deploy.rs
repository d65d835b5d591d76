//! Deployment of rooms and ensign profiles.
use vstd::prelude::*;
use crate::bits::{real_eq, reals3_eq, same_real, same_reals3};
use crate::equality::strings_eq;
use crate::error::DeployError;
use crate::render::Render;
use crate::text::{pad_right, push_pad_right, views};

verus! {

/// Profile configuration for an ensign.
#[derive(Debug, Eq)]
pub struct EnsignProfile {
    /// Name of the profile.
    pub profile_name: String,
    /// Model identifier.
    pub model: String,
    /// Priority level.
    pub priority: u32,
    /// Feature flags.
    pub flags: Vec<String>,
}

/// The contents of an ensign profile, its texts as character sequences.
pub struct EnsignProfileView {
    pub profile_name: Seq<char>,
    pub model: Seq<char>,
    pub priority: u32,
    pub flags: Seq<Seq<char>>,
}

impl View for EnsignProfile {
    type V = EnsignProfileView;

    open spec fn view(&self) -> EnsignProfileView {
        EnsignProfileView {
            profile_name: self.profile_name@,
            model: self.model@,
            priority: self.priority,
            flags: views(self.flags@),
        }
    }
}

impl EnsignProfile {
    /// The two profiles have equal fields.
    pub open spec fn same_as(&self, other: &Self) -> bool {
        &&& self.profile_name@ == other.profile_name@
        &&& self.model@ == other.model@
        &&& self.priority == other.priority
        &&& views(self.flags@) == views(other.flags@)
    }
}

impl PartialEq for EnsignProfile {
    fn eq(&self, other: &Self) -> (r: bool) {
        self.profile_name == other.profile_name && self.model == other.model && self.priority
            == other.priority && strings_eq(&self.flags, &other.flags)
    }
}

impl vstd::std_specs::cmp::PartialEqSpecImpl for EnsignProfile {
    open spec fn obeys_eq_spec() -> bool {
        true
    }

    open spec fn eq_spec(&self, other: &Self) -> bool {
        self.same_as(other)
    }
}

impl Clone for EnsignProfile {
    fn clone(&self) -> (r: Self)
        ensures
            r@ == self@,
    {
        let flags = self.flags.clone();
        assert(views(flags@) =~= views(self.flags@));
        EnsignProfile {
            profile_name: self.profile_name.clone(),
            model: self.model.clone(),
            priority: self.priority,
            flags,
        }
    }
}

/// Manifest describing a room to be deployed.
///
/// Real-valued quantities are held as the bit patterns of `f64` values.
#[derive(Debug)]
pub struct RoomManifest {
    /// Target room identifier.
    pub room_id: String,
    /// Spatial dimensions (bits of `f64` values).
    pub dimensions: [u64; 3],
    /// Maximum tile capacity.
    pub max_tiles: usize,
    /// Gravity setting (bits of an `f64`).
    pub gravity_setting: u64,
    /// Optional ensign profile to attach.
    pub ensign_profile: Option<EnsignProfile>,
}

/// The contents of a room manifest.
pub struct RoomManifestView {
    pub room_id: Seq<char>,
    pub dimensions: [u64; 3],
    pub max_tiles: usize,
    pub gravity_setting: u64,
    pub ensign_profile: Option<EnsignProfileView>,
}

impl View for RoomManifest {
    type V = RoomManifestView;

    open spec fn view(&self) -> RoomManifestView {
        RoomManifestView {
            room_id: self.room_id@,
            dimensions: self.dimensions,
            max_tiles: self.max_tiles,
            gravity_setting: self.gravity_setting,
            ensign_profile: match self.ensign_profile {
                Some(p) => Some(p@),
                None => None,
            },
        }
    }
}

impl RoomManifest {
    /// The two manifests have equal fields, real values compared as `f64`.
    pub open spec fn same_as(&self, other: &Self) -> bool {
        &&& self.room_id@ == other.room_id@
        &&& same_reals3(self.dimensions, other.dimensions)
        &&& self.max_tiles == other.max_tiles
        &&& same_real(self.gravity_setting, other.gravity_setting)
        &&& match (self.ensign_profile, other.ensign_profile) {
            (Some(a), Some(b)) => a.same_as(&b),
            (None, None) => true,
            _ => false,
        }
    }
}

impl PartialEq for RoomManifest {
    fn eq(&self, other: &Self) -> (r: bool) {
        let profiles = match (&self.ensign_profile, &other.ensign_profile) {
            (Some(a), Some(b)) => *a == *b,
            (None, None) => true,
            _ => false,
        };
        self.room_id == other.room_id && reals3_eq(&self.dimensions, &other.dimensions)
            && self.max_tiles == other.max_tiles && real_eq(
            self.gravity_setting,
            other.gravity_setting,
        ) && profiles
    }
}

impl vstd::std_specs::cmp::PartialEqSpecImpl for RoomManifest {
    open spec fn obeys_eq_spec() -> bool {
        true
    }

    open spec fn eq_spec(&self, other: &Self) -> bool {
        self.same_as(other)
    }
}

impl Clone for RoomManifest {
    fn clone(&self) -> (r: Self)
        ensures
            r@ == self@,
    {
        let ensign_profile = match &self.ensign_profile {
            Some(p) => Some(p.clone()),
            None => None,
        };
        RoomManifest {
            room_id: self.room_id.clone(),
            dimensions: self.dimensions,
            max_tiles: self.max_tiles,
            gravity_setting: self.gravity_setting,
            ensign_profile,
        }
    }
}

/// Record of a deployed room.
#[derive(Debug)]
pub struct Deployment {
    /// Room identifier.
    pub room_id: String,
    /// Manifest used for deployment.
    pub manifest: RoomManifest,
    /// Deployment timestamp string.
    pub deployed_at: String,
}

/// The contents of a deployment record.
pub struct DeploymentView {
    pub room_id: Seq<char>,
    pub manifest: RoomManifestView,
    pub deployed_at: Seq<char>,
}

impl View for Deployment {
    type V = DeploymentView;

    open spec fn view(&self) -> DeploymentView {
        DeploymentView {
            room_id: self.room_id@,
            manifest: self.manifest@,
            deployed_at: self.deployed_at@,
        }
    }
}

impl Deployment {
    /// The two records have equal fields, their manifests compared by their own `==`.
    pub open spec fn same_as(&self, other: &Self) -> bool {
        &&& self.room_id@ == other.room_id@
        &&& self.manifest.same_as(&other.manifest)
        &&& self.deployed_at@ == other.deployed_at@
    }
}

impl PartialEq for Deployment {
    fn eq(&self, other: &Self) -> (r: bool) {
        self.room_id == other.room_id && self.manifest == other.manifest && self.deployed_at
            == other.deployed_at
    }
}

impl vstd::std_specs::cmp::PartialEqSpecImpl for Deployment {
    open spec fn obeys_eq_spec() -> bool {
        true
    }

    open spec fn eq_spec(&self, other: &Self) -> bool {
        self.same_as(other)
    }
}

impl Clone for Deployment {
    fn clone(&self) -> (r: Self)
        ensures
            r@ == self@,
    {
        Deployment {
            room_id: self.room_id.clone(),
            manifest: self.manifest.clone(),
            deployed_at: self.deployed_at.clone(),
        }
    }
}

impl DeploymentView {
    /// The ensign named on the panel: the profile's name, or `none`.
    pub open spec fn ensign_name(self) -> Seq<char> {
        match self.manifest.ensign_profile {
            Some(p) => p.profile_name,
            None => "none"@,
        }
    }

    /// The panel that `render` writes.
    pub open spec fn panel(self) -> Seq<char> {
        "+------------------------------+\n| Deployment: "@
            + pad_right(self.room_id, 16)
            + " |\n| Room: "@
            + pad_right(self.room_id, 22)
            + " |\n| Ensign: "@
            + pad_right(self.ensign_name(), 20)
            + " |\n| At: "@
            + pad_right(self.deployed_at, 24)
            + " |\n+------------------------------+"@
    }

    /// The record that deploying `manifest` creates.
    pub open spec fn fresh(manifest: RoomManifestView) -> DeploymentView {
        DeploymentView { room_id: manifest.room_id, manifest, deployed_at: "now"@ }
    }

    /// The record with `profile` attached as its ensign.
    pub open spec fn with_ensign(self, profile: EnsignProfileView) -> DeploymentView {
        DeploymentView {
            manifest: RoomManifestView { ensign_profile: Some(profile), ..self.manifest },
            ..self
        }
    }
}

impl Render for Deployment {
    fn render(&self) -> (r: String)
        ensures
            r@ == self@.panel(),
    {
        let ensign = match &self.manifest.ensign_profile {
            Some(p) => p.profile_name.as_str(),
            None => "none",
        };
        let mut out = String::new();
        out.append("+------------------------------+\n| Deployment: ");
        push_pad_right(&mut out, self.room_id.as_str(), 16);
        out.append(" |\n| Room: ");
        push_pad_right(&mut out, self.room_id.as_str(), 22);
        out.append(" |\n| Ensign: ");
        push_pad_right(&mut out, ensign, 20);
        out.append(" |\n| At: ");
        push_pad_right(&mut out, self.deployed_at.as_str(), 24);
        out.append(" |\n+------------------------------+");
        out
    }
}

/// The room identifiers of the deployments, in order.
pub open spec fn room_keys(s: Seq<Deployment>) -> Seq<Seq<char>> {
    s.map_values(|d: Deployment| d.room_id@)
}

/// Some deployment of `s` is of the room `k`.
pub open spec fn deploys_room(s: Seq<Deployment>, k: Seq<char>) -> bool {
    exists|i: int| 0 <= i < s.len() && #[trigger] s[i].room_id@ == k
}

/// The deployments of `s` keyed by their room.
pub open spec fn deployments_by_room(s: Seq<Deployment>) -> Map<Seq<char>, DeploymentView> {
    Map::new(
        |k: Seq<char>| deploys_room(s, k),
        |k: Seq<char>| s[choose|i: int| 0 <= i < s.len() && #[trigger] s[i].room_id@ == k]@,
    )
}

/// Each deployment of `s` is of a distinct, non-empty room, records that
/// room's manifest and was recorded `now`.
pub open spec fn well_formed_deployments(s: Seq<Deployment>) -> bool {
    &&& forall|i: int, j: int|
        0 <= i < s.len() && 0 <= j < s.len() && i != j ==> s[i].room_id@ != s[j].room_id@
    &&& forall|i: int|
        0 <= i < s.len() ==> {
            &&& (#[trigger] s[i]).room_id@.len() > 0
            &&& s[i].manifest.room_id@ == s[i].room_id@
            &&& s[i].deployed_at@ == "now"@
        }
}

proof fn lemma_deployments_by_room_at(s: Seq<Deployment>, i: int)
    requires
        well_formed_deployments(s),
        0 <= i < s.len(),
    ensures
        deployments_by_room(s).contains_key(s[i].room_id@),
        deployments_by_room(s)[s[i].room_id@] == s[i]@,
{
    let k = s[i].room_id@;
    assert(deploys_room(s, k));
    let j = choose|j: int| 0 <= j < s.len() && #[trigger] s[j].room_id@ == k;
    assert(j == i);
}

proof fn lemma_deployments_by_room_finite(s: Seq<Deployment>)
    requires
        well_formed_deployments(s),
    ensures
        deployments_by_room(s).dom().finite(),
        deployments_by_room(s).dom().len() == s.len(),
{
    let keys = room_keys(s);
    assert(keys.no_duplicates());
    keys.unique_seq_to_set();
    vstd::seq_lib::seq_to_set_is_finite(keys);
    assert forall|k: Seq<char>| deployments_by_room(s).dom().contains(k) == keys.to_set().contains(k) by {
        if deploys_room(s, k) {
            let i = choose|i: int| 0 <= i < s.len() && #[trigger] s[i].room_id@ == k;
            assert(keys[i] == k);
        }
        if keys.contains(k) {
            let i = choose|i: int| 0 <= i < keys.len() && keys[i] == k;
            assert(s[i].room_id@ == k);
        }
    }
    assert(deployments_by_room(s).dom() =~= keys.to_set());
}

/// Putting the well-formed record `value` at position `pos` (in place of the
/// deployment of the same room, or at the end) makes the map hold `value` for
/// that room and leaves every other room as it was.
proof fn lemma_deployments_by_room_put(
    before: Seq<Deployment>,
    after: Seq<Deployment>,
    pos: int,
    key: Seq<char>,
    value: DeploymentView,
)
    requires
        well_formed_deployments(before),
        0 <= pos < after.len(),
        after.len() == before.len() || (after.len() == before.len() + 1 && pos == before.len()),
        pos < before.len() ==> before[pos].room_id@ == key,
        pos == before.len() ==> !deploys_room(before, key),
        after[pos].room_id@ == key,
        after[pos]@ == value,
        key.len() > 0,
        value.manifest.room_id == key,
        value.deployed_at == "now"@,
        forall|j: int| 0 <= j < after.len() && j != pos ==> after[j] == before[j],
    ensures
        well_formed_deployments(after),
        deployments_by_room(after) == deployments_by_room(before).insert(key, value),
{
    assert forall|i: int, j: int|
        0 <= i < after.len() && 0 <= j < after.len() && i != j implies after[i].room_id@
        != after[j].room_id@ by {
        if i != pos && j != pos {
            assert(after[i] == before[i] && after[j] == before[j]);
        } else if i == pos {
            assert(after[j] == before[j]);
            if pos == before.len() {
                assert(!(before[j].room_id@ == key));
            }
        } else {
            assert(after[i] == before[i]);
            if pos == before.len() {
                assert(!(before[i].room_id@ == key));
            }
        }
    }
    assert forall|i: int| 0 <= i < after.len() implies {
        &&& (#[trigger] after[i]).room_id@.len() > 0
        &&& after[i].manifest.room_id@ == after[i].room_id@
        &&& after[i].deployed_at@ == "now"@
    } by {
        if i != pos {
            assert(after[i] == before[i]);
        }
    }
    assert forall|k: Seq<char>|
        #[trigger] deployments_by_room(after).contains_key(k) == deployments_by_room(
            before,
        ).insert(key, value).contains_key(k) && (deployments_by_room(after).contains_key(k)
            ==> deployments_by_room(after)[k] == deployments_by_room(before).insert(
            key,
            value,
        )[k]) by {
        if k == key {
            lemma_deployments_by_room_at(after, pos);
        } else if deploys_room(before, k) {
            let j = choose|j: int| 0 <= j < before.len() && #[trigger] before[j].room_id@ == k;
            lemma_deployments_by_room_at(before, j);
            assert(after[j] == before[j]);
            lemma_deployments_by_room_at(after, j);
        } else if deploys_room(after, k) {
            let j = choose|j: int| 0 <= j < after.len() && #[trigger] after[j].room_id@ == k;
            assert(after[j] == before[j]);
        }
    }
    assert(deployments_by_room(after) =~= deployments_by_room(before).insert(key, value));
}

/// Taking out the deployment at position `i` takes its room out of the map
/// and leaves every other room as it was.
proof fn lemma_deployments_by_room_remove(before: Seq<Deployment>, i: int)
    requires
        well_formed_deployments(before),
        0 <= i < before.len(),
    ensures
        well_formed_deployments(before.remove(i)),
        deployments_by_room(before.remove(i)) == deployments_by_room(before).remove(
            before[i].room_id@,
        ),
{
    let after = before.remove(i);
    let key = before[i].room_id@;
    assert(forall|j: int| 0 <= j < i ==> after[j] == before[j]);
    assert(forall|j: int| i <= j < after.len() ==> after[j] == before[j + 1]);
    assert(well_formed_deployments(after));
    assert forall|k: Seq<char>|
        #[trigger] deployments_by_room(after).contains_key(k) == deployments_by_room(
            before,
        ).remove(key).contains_key(k) && (deployments_by_room(after).contains_key(k)
            ==> deployments_by_room(after)[k] == deployments_by_room(before).remove(key)[k]) by {
        if deploys_room(after, k) {
            let j = choose|j: int| 0 <= j < after.len() && #[trigger] after[j].room_id@ == k;
            let bj = if j < i { j } else { j + 1 };
            assert(before[bj] == after[j]);
            assert(bj != i);
            lemma_deployments_by_room_at(before, bj);
            lemma_deployments_by_room_at(after, j);
        } else if deploys_room(before, k) && k != key {
            let j = choose|j: int| 0 <= j < before.len() && #[trigger] before[j].room_id@ == k;
            assert(j != i);
            let aj = if j < i { j } else { j - 1 };
            assert(after[aj] == before[j]);
        }
    }
    assert(deployments_by_room(after) =~= deployments_by_room(before).remove(key));
}

/// Two sequences of deployments with the same contents, position by position,
/// give the same map.
proof fn lemma_deployments_by_room_same_contents(s: Seq<Deployment>, t: Seq<Deployment>)
    requires
        well_formed_deployments(s),
        s.len() == t.len(),
        forall|i: int| 0 <= i < s.len() ==> #[trigger] t[i]@ == s[i]@,
    ensures
        well_formed_deployments(t),
        deployments_by_room(t) == deployments_by_room(s),
{
    assert forall|i: int, j: int|
        0 <= i < t.len() && 0 <= j < t.len() && i != j implies t[i].room_id@ != t[j].room_id@ by {
        assert(t[i]@ == s[i]@);
        assert(t[j]@ == s[j]@);
    }
    assert forall|i: int| 0 <= i < t.len() implies {
        &&& (#[trigger] t[i]).room_id@.len() > 0
        &&& t[i].manifest.room_id@ == t[i].room_id@
        &&& t[i].deployed_at@ == "now"@
    } by {
        assert(t[i]@ == s[i]@);
    }
    assert forall|k: Seq<char>|
        #[trigger] deployments_by_room(t).contains_key(k) == deployments_by_room(s).contains_key(k)
            && (deployments_by_room(t).contains_key(k) ==> deployments_by_room(t)[k]
            == deployments_by_room(s)[k]) by {
        if deploys_room(s, k) {
            let j = choose|j: int| 0 <= j < s.len() && #[trigger] s[j].room_id@ == k;
            assert(t[j]@ == s[j]@);
            lemma_deployments_by_room_at(s, j);
            lemma_deployments_by_room_at(t, j);
        } else if deploys_room(t, k) {
            let j = choose|j: int| 0 <= j < t.len() && #[trigger] t[j].room_id@ == k;
            assert(t[j]@ == s[j]@);
        }
    }
    assert(deployments_by_room(t) =~= deployments_by_room(s));
}

/// The index of the deployment of `room_id`, if any.
fn find_deployment(ds: &Vec<Deployment>, room_id: &String) -> (r: Option<usize>)
    ensures
        match r {
            Some(i) => i < ds@.len() && ds@[i as int].room_id@ == room_id@,
            None => !deploys_room(ds@, room_id@),
        },
{
    let mut i: usize = 0;
    while i < ds.len()
        invariant
            i <= ds.len(),
            forall|j: int| 0 <= j < i ==> ds@[j].room_id@ != room_id@,
        decreases ds.len() - i,
    {
        if ds[i].room_id == *room_id {
            return Some(i);
        }
        i = i + 1;
    }
    None
}

/// Deploys rooms and ensigns.
#[derive(Debug)]
pub struct ConstructDeployer {
    deployments: Vec<Deployment>,
}

impl ConstructDeployer {
    #[verifier::type_invariant]
    spec fn deployments_well_formed(self) -> bool {
        well_formed_deployments(self.deployments@)
    }
}

impl View for ConstructDeployer {
    type V = Map<Seq<char>, DeploymentView>;

    closed spec fn view(&self) -> Map<Seq<char>, DeploymentView> {
        deployments_by_room(self.deployments@)
    }
}

impl ConstructDeployer {
    /// Create a new deployer.
    pub fn new() -> (r: Self)
        ensures
            r@ == Map::<Seq<char>, DeploymentView>::empty(),
    {
        let r = ConstructDeployer { deployments: Vec::new() };
        assert(r@ =~= Map::<Seq<char>, DeploymentView>::empty());
        r
    }

    /// Deploy a room from a manifest.
    ///
    /// # Errors
    ///
    /// Returns `DeployError::InvalidConfig` if the room ID is empty.
    /// Returns `DeployError::AlreadyExists` if the room is already deployed.
    pub fn deploy_room(&mut self, config: RoomManifest) -> (r: Result<String, DeployError>)
        ensures
            config.room_id@.len() == 0 ==> {
                &&& final(self)@ == old(self)@
                &&& r matches Err(DeployError::InvalidConfig(msg)) && msg@ == "room_id cannot be empty"@
            },
            config.room_id@.len() > 0 && old(self)@.contains_key(config.room_id@) ==> {
                &&& final(self)@ == old(self)@
                &&& r matches Err(DeployError::AlreadyExists(id)) && id@ == config.room_id@
            },
            config.room_id@.len() > 0 && !old(self)@.contains_key(config.room_id@) ==> {
                &&& final(self)@ == old(self)@.insert(config.room_id@, DeploymentView::fresh(config@))
                &&& r matches Ok(id) && id@ == config.room_id@
            },
    {
        proof {
            use_type_invariant(&*self);
        }
        if config.room_id.as_str().is_empty() {
            return Err(DeployError::InvalidConfig(String::from_str("room_id cannot be empty")));
        }
        if let Some(_) = find_deployment(&self.deployments, &config.room_id) {
            proof {
                let i = choose|i: int|
                    0 <= i < self.deployments@.len() && #[trigger] self.deployments@[i].room_id@
                        == config.room_id@;
                lemma_deployments_by_room_at(self.deployments@, i);
            }
            return Err(DeployError::AlreadyExists(config.room_id.clone()));
        }
        let ghost before = self.deployments@;
        let ghost key = config.room_id@;
        let ghost value = DeploymentView::fresh(config@);
        let deployment = Deployment {
            room_id: config.room_id.clone(),
            manifest: config,
            deployed_at: String::from_str("now"),
        };
        let id = deployment.room_id.clone();
        let mut ds: Vec<Deployment> = Vec::new();
        std::mem::swap(&mut ds, &mut self.deployments);
        ds.push(deployment);
        proof {
            lemma_deployments_by_room_put(before, ds@, before.len() as int, key, value);
        }
        self.deployments = ds;
        Ok(id)
    }
}

impl ConstructDeployer {
    /// Deploy (or update) an ensign profile for a room.
    ///
    /// # Errors
    ///
    /// Returns `DeployError::RoomNotFound` if the room does not exist.
    pub fn deploy_ensign(&mut self, room_id: &str, profile: EnsignProfile) -> (r: Result<
        String,
        DeployError,
    >)
        ensures
            !old(self)@.contains_key(room_id@) ==> {
                &&& final(self)@ == old(self)@
                &&& r matches Err(DeployError::RoomNotFound(id)) && id@ == room_id@
            },
            old(self)@.contains_key(room_id@) ==> {
                &&& final(self)@ == old(self)@.insert(
                    room_id@,
                    old(self)@[room_id@].with_ensign(profile@),
                )
                &&& r matches Ok(id) && id@ == room_id@
            },
    {
        proof {
            use_type_invariant(&*self);
        }
        let key = String::from_str(room_id);
        match find_deployment(&self.deployments, &key) {
            None => Err(DeployError::RoomNotFound(key)),
            Some(i) => {
                let ghost before = self.deployments@;
                let ghost value = before[i as int]@.with_ensign(profile@);
                proof {
                    lemma_deployments_by_room_at(before, i as int);
                }
                let mut d = self.deployments[i].clone();
                d.manifest.ensign_profile = Some(profile);
                assert(d@ == value);
                let mut ds: Vec<Deployment> = Vec::new();
                std::mem::swap(&mut ds, &mut self.deployments);
                ds.set(i, d);
                proof {
                    lemma_deployments_by_room_put(before, ds@, i as int, room_id@, value);
                }
                self.deployments = ds;
                Ok(key)
            },
        }
    }

    /// Remove a deployed room.
    ///
    /// # Errors
    ///
    /// Returns `DeployError::RoomNotFound` if the room does not exist.
    pub fn remove_room(&mut self, room_id: &str) -> (r: Result<(), DeployError>)
        ensures
            !old(self)@.contains_key(room_id@) ==> {
                &&& final(self)@ == old(self)@
                &&& r matches Err(DeployError::RoomNotFound(id)) && id@ == room_id@
            },
            old(self)@.contains_key(room_id@) ==> {
                &&& final(self)@ == old(self)@.remove(room_id@)
                &&& r is Ok
            },
    {
        proof {
            use_type_invariant(&*self);
        }
        let key = String::from_str(room_id);
        match find_deployment(&self.deployments, &key) {
            None => Err(DeployError::RoomNotFound(key)),
            Some(i) => {
                let ghost before = self.deployments@;
                let mut ds: Vec<Deployment> = Vec::new();
                std::mem::swap(&mut ds, &mut self.deployments);
                ds.remove(i);
                proof {
                    lemma_deployments_by_room_remove(before, i as int);
                }
                self.deployments = ds;
                Ok(())
            },
        }
    }

    /// List all current deployments, each once, in no particular order.
    pub fn list_deployments(&self) -> (r: Vec<Deployment>)
        ensures
            self@.dom().finite(),
            r@.len() == self@.dom().len(),
            forall|i: int|
                #![trigger r@[i]]
                0 <= i < r@.len() ==> self@.contains_key(r@[i].room_id@) && r@[i]@ == self@[r@[i].room_id@],
            forall|k: Seq<char>|
                #[trigger] self@.contains_key(k) ==> exists|i: int|
                    0 <= i < r@.len() && #[trigger] r@[i].room_id@ == k,
            forall|i: int, j: int|
                0 <= i < r@.len() && 0 <= j < r@.len() && i != j ==> r@[i].room_id@
                    != r@[j].room_id@,
            forall|i: int|
                0 <= i < r@.len() ==> {
                    &&& (#[trigger] r@[i]).room_id@.len() > 0
                    &&& r@[i].manifest.room_id@ == r@[i].room_id@
                    &&& r@[i].deployed_at@ == "now"@
                },
    {
        proof {
            use_type_invariant(self);
            lemma_deployments_by_room_finite(self.deployments@);
        }
        let mut r: Vec<Deployment> = Vec::new();
        let mut i: usize = 0;
        while i < self.deployments.len()
            invariant
                i <= self.deployments.len(),
                r@.len() == i,
                forall|j: int| 0 <= j < i ==> #[trigger] r@[j]@ == self.deployments@[j]@,
            decreases self.deployments.len() - i,
        {
            r.push(self.deployments[i].clone());
            i = i + 1;
        }
        proof {
            let s = self.deployments@;
            assert forall|i: int|
                #![trigger r@[i]]
                0 <= i < r@.len() implies self@.contains_key(r@[i].room_id@) && r@[i]@
                == self@[r@[i].room_id@] by {
                assert(r@[i]@ == s[i]@);
                lemma_deployments_by_room_at(s, i);
            }
            assert forall|k: Seq<char>| #[trigger] self@.contains_key(k) implies exists|i: int|
                0 <= i < r@.len() && #[trigger] r@[i].room_id@ == k by {
                let i = choose|i: int| 0 <= i < s.len() && #[trigger] s[i].room_id@ == k;
                assert(r@[i]@ == s[i]@);
            }
            assert forall|i: int, j: int|
                0 <= i < r@.len() && 0 <= j < r@.len() && i != j implies r@[i].room_id@
                != r@[j].room_id@ by {
                assert(r@[i]@ == s[i]@);
                assert(r@[j]@ == s[j]@);
            }
            assert forall|i: int| 0 <= i < r@.len() implies {
                &&& (#[trigger] r@[i]).room_id@.len() > 0
                &&& r@[i].manifest.room_id@ == r@[i].room_id@
                &&& r@[i].deployed_at@ == "now"@
            } by {
                assert(r@[i]@ == s[i]@);
            }
        }
        r
    }
}

impl Clone for ConstructDeployer {
    fn clone(&self) -> (r: Self)
        ensures
            r@ == self@,
    {
        proof {
            use_type_invariant(self);
        }
        let mut ds: Vec<Deployment> = Vec::new();
        let mut i: usize = 0;
        while i < self.deployments.len()
            invariant
                i <= self.deployments.len(),
                ds@.len() == i,
                forall|j: int| 0 <= j < i ==> #[trigger] ds@[j]@ == self.deployments@[j]@,
            decreases self.deployments.len() - i,
        {
            ds.push(self.deployments[i].clone());
            i = i + 1;
        }
        proof {
            lemma_deployments_by_room_same_contents(self.deployments@, ds@);
        }
        ConstructDeployer { deployments: ds }
    }
}

impl Default for ConstructDeployer {
    fn default() -> (r: Self)
        ensures
            r@ == Map::<Seq<char>, DeploymentView>::empty(),
    {
        Self::new()
    }
}

} // verus!
