//! Selection of the assets directory from the container listing.
//!
//! The running tool asks the container runtime for every container and for
//! the mounts of the candidates; those calls produce plain records, and the
//! choice made over them is here: order the containers newest first, keep
//! those running the benchmark image, and hand back the host path mounted at
//! the assets destination of the first candidate that has one.

use vstd::prelude::*;
use vstd::string::{StrSliceExecFns, StringExecFns};

verus! {

/// Errors of the container-runtime interaction: a process-level failure, an
/// undecodable listing, or a listing without the wanted container.
#[derive(Debug)]
pub enum DockerError {
    Io(String),
    Json(String),
    Other(String),
}

/// One mount of a container: the host path and where it is mounted.
pub struct InspectMount {
    pub source: String,
    pub destination: String,
}

/// Mathematical model of an [`InspectMount`].
pub struct MountModel {
    pub source: Seq<char>,
    pub destination: Seq<char>,
}

impl View for InspectMount {
    type V = MountModel;

    open spec fn view(&self) -> MountModel {
        MountModel { source: self.source@, destination: self.destination@ }
    }
}

/// One container of the runtime's listing, together with what inspecting it
/// reported.
pub struct Container {
    pub id: String,
    pub image_name: String,
    pub created_at: String,
    pub mounts: Vec<InspectMount>,
}

/// Mathematical model of a [`Container`].
pub struct ContainerModel {
    pub id: Seq<char>,
    pub image_name: Seq<char>,
    pub created_at: Seq<char>,
    pub mounts: Seq<MountModel>,
}

impl View for Container {
    type V = ContainerModel;

    open spec fn view(&self) -> ContainerModel {
        ContainerModel {
            id: self.id@,
            image_name: self.image_name@,
            created_at: self.created_at@,
            mounts: self.mounts@.map_values(|m: InspectMount| m@),
        }
    }
}

/// The models of a sequence of containers.
pub open spec fn container_views(s: Seq<Container>) -> Seq<ContainerModel> {
    s.map_values(|c: Container| c@)
}

/// The image whose container carries the assets mount.
pub open spec fn benchmark_image() -> Seq<char> {
    "benchmark-runner-benchmark-runner"@
}

/// The mount destination under which the assets live.
pub open spec fn assets_destination() -> Seq<char> {
    "/assets"@
}

/// The message reported when no container of the benchmark image is found.
pub open spec fn image_not_found_message() -> Seq<char> {
    "Could not find docker container with image name: benchmark-runner-benchmark-runner"@
}

/// Whether `a` comes at or before `b` in code-point order, decided from
/// position `i` on.
pub open spec fn lex_le_from(a: Seq<char>, b: Seq<char>, i: int) -> bool
    decreases a.len() - i,
{
    if i >= a.len() {
        true
    } else if i >= b.len() {
        false
    } else if (a[i] as u32) < (b[i] as u32) {
        true
    } else if (a[i] as u32) > (b[i] as u32) {
        false
    } else {
        lex_le_from(a, b, i + 1)
    }
}

/// Code-point lexicographic order on character strings, as the runtime's
/// timestamp strings sort.
pub open spec fn lex_le(a: Seq<char>, b: Seq<char>) -> bool {
    lex_le_from(a, b, 0)
}

/// Decides [`lex_le`] on two strings.
#[verifier::loop_isolation(false)]
fn str_lex_le(a: &str, b: &str) -> (r: bool)
    ensures
        r == lex_le(a@, b@),
{
    let a_len = a.unicode_len();
    let b_len = b.unicode_len();
    let mut i: usize = 0;
    loop
        invariant
            i <= a_len,
            a_len == a@.len(),
            b_len == b@.len(),
            lex_le(a@, b@) == lex_le_from(a@, b@, i as int),
        decreases a_len - i,
    {
        if i >= a_len {
            return true;
        }
        if i >= b_len {
            return false;
        }
        let ca = a.get_char(i) as u32;
        let cb = b.get_char(i) as u32;
        if ca < cb {
            return true;
        }
        if ca > cb {
            return false;
        }
        i = i + 1;
    }
}

/// Where the newly processed container goes in an already ordered run:
/// after every container whose timestamp is at or above its own — newest
/// first, and containers with equal timestamps keep their original order.
pub open spec fn insert_desc(sorted: Seq<ContainerModel>, c: ContainerModel) -> Seq<ContainerModel>
    decreases sorted.len(),
{
    if sorted.len() == 0 {
        seq![c]
    } else if lex_le(c.created_at, sorted[0].created_at) {
        seq![sorted[0]] + insert_desc(sorted.drop_first(), c)
    } else {
        seq![c] + sorted
    }
}

/// The container listing ordered newest first: each container of the
/// listing, in order, inserted into the ordered run of its predecessors.
pub open spec fn sort_desc(s: Seq<ContainerModel>) -> Seq<ContainerModel>
    decreases s.len(),
{
    if s.len() == 0 {
        Seq::empty()
    } else {
        insert_desc(sort_desc(s.drop_last()), s.last())
    }
}

/// The source of the first mount from `j` on whose destination is the
/// assets destination.
pub open spec fn find_mount_from(mounts: Seq<MountModel>, j: int) -> Option<Seq<char>>
    decreases mounts.len() - j,
{
    if j >= mounts.len() {
        None
    } else if mounts[j].destination == assets_destination() {
        Some(mounts[j].source)
    } else {
        find_mount_from(mounts, j + 1)
    }
}

/// The assets source of the first container from `i` on that runs the
/// benchmark image and has a mount at the assets destination.
pub open spec fn find_assets_from(s: Seq<ContainerModel>, i: int) -> Option<Seq<char>>
    decreases s.len() - i,
{
    if i >= s.len() {
        None
    } else if s[i].image_name == benchmark_image() {
        match find_mount_from(s[i].mounts, 0) {
            Some(source) => Some(source),
            None => find_assets_from(s, i + 1),
        }
    } else {
        find_assets_from(s, i + 1)
    }
}

/// If `c` belongs at position `pos` — every earlier container's timestamp
/// is at or above `c`'s, and the one at `pos`, if any, is strictly below —
/// then inserting `c` into the run splices it in exactly there.
proof fn lemma_insert_at(s: Seq<ContainerModel>, c: ContainerModel, pos: int)
    requires
        0 <= pos <= s.len(),
        forall|j: int| 0 <= j < pos ==> lex_le(c.created_at, (#[trigger] s[j]).created_at),
        pos < s.len() ==> !lex_le(c.created_at, s[pos].created_at),
    ensures
        insert_desc(s, c) == s.subrange(0, pos) + seq![c] + s.skip(pos),
    decreases s.len(),
{
    if pos == 0 {
        assert(insert_desc(s, c) =~= s.subrange(0, 0) + seq![c] + s.skip(0));
    } else {
        assert(lex_le(c.created_at, s[0].created_at));
        assert forall|j: int| 0 <= j < pos - 1 implies lex_le(
            c.created_at,
            (#[trigger] s.drop_first()[j]).created_at,
        ) by {
            assert(s.drop_first()[j] == s[j + 1]);
        }
        assert(pos - 1 < s.drop_first().len() ==> s.drop_first()[pos - 1] == s[pos]);
        lemma_insert_at(s.drop_first(), c, pos - 1);
        assert(seq![s[0]] + (s.drop_first().subrange(0, pos - 1) + seq![c] + s.drop_first().skip(
            pos - 1,
        )) =~= s.subrange(0, pos) + seq![c] + s.skip(pos));
    }
}

/// Inserts one container into an ordered run, keeping it ordered, as
/// [`insert_desc`] states.
#[verifier::loop_isolation(false)]
fn insert_sorted(sorted: &mut Vec<Container>, c: Container)
    ensures
        container_views(final(sorted)@) == insert_desc(container_views(old(sorted)@), c@),
{
    let n = sorted.len();
    let mut pos: usize = 0;
    while pos < n && str_lex_le(c.created_at.as_str(), sorted[pos].created_at.as_str())
        invariant
            pos <= n,
            n == sorted@.len(),
            sorted@ == old(sorted)@,
            forall|j: int|
                0 <= j < pos ==> lex_le(
                    c@.created_at,
                    (#[trigger] container_views(sorted@)[j]).created_at,
                ),
        decreases n - pos,
    {
        pos = pos + 1;
    }
    proof {
        lemma_insert_at(container_views(sorted@), c@, pos as int);
    }
    sorted.insert(pos, c);
    proof {
        assert(container_views(sorted@) =~= container_views(old(sorted)@).subrange(0, pos as int)
            + seq![c@] + container_views(old(sorted)@).skip(pos as int));
    }
}

/// Orders the container listing newest first, as [`sort_desc`] states:
/// a stable ordering by timestamp, descending.
#[verifier::loop_isolation(false)]
fn sort_containers(containers: Vec<Container>) -> (r: Vec<Container>)
    ensures
        container_views(r@) == sort_desc(container_views(containers@)),
{
    let mut remaining = containers;
    let mut sorted: Vec<Container> = Vec::new();
    let ghost done = Seq::<ContainerModel>::empty();
    proof {
        assert(done + container_views(remaining@) =~= container_views(containers@));
        assert(container_views(sorted@) =~= sort_desc(done));
    }
    while remaining.len() > 0
        invariant
            done + container_views(remaining@) == container_views(containers@),
            container_views(sorted@) == sort_desc(done),
        decreases remaining@.len(),
    {
        let ghost prev_done = done;
        let ghost prev_remaining = container_views(remaining@);
        let c = remaining.remove(0);
        proof {
            done = prev_done.push(c@);
            assert(container_views(remaining@) =~= prev_remaining.drop_first());
            assert(done + container_views(remaining@) =~= prev_done + prev_remaining);
            assert(done.drop_last() =~= prev_done);
            assert(done.last() == c@);
        }
        insert_sorted(&mut sorted, c);
        proof {
            assert(container_views(sorted@) == insert_desc(sort_desc(prev_done), c@));
        }
    }
    proof {
        assert(done =~= container_views(containers@));
    }
    sorted
}

/// The host directory mounted at the assets destination of the newest
/// container running the benchmark image: the listing is ordered newest
/// first and the first candidate with an assets mount decides; without one,
/// the lookup fails.
#[verifier::loop_isolation(false)]
pub fn get_assets_dir(containers: Vec<Container>) -> (r: Result<String, DockerError>)
    ensures
        ({
            let ordered = sort_desc(container_views(containers@));
            match find_assets_from(ordered, 0) {
                Some(source) => r matches Ok(s) && s@ == source,
                None => r matches Err(e) && (e matches DockerError::Other(m) && m@
                    == image_not_found_message()),
            }
        }),
{
    let ghost ordered = sort_desc(container_views(containers@));
    let sorted = sort_containers(containers);
    let image_name = String::from_str("benchmark-runner-benchmark-runner");
    let assets = String::from_str("/assets");
    let n = sorted.len();
    let mut i: usize = 0;
    while i < n
        invariant
            i <= n,
            n == sorted@.len(),
            container_views(sorted@) == ordered,
            find_assets_from(ordered, 0) == find_assets_from(ordered, i as int),
        decreases n - i,
    {
        let container = &sorted[i];
        proof {
            assert(container@ == ordered[i as int]);
        }
        if container.image_name == image_name {
            let m = container.mounts.len();
            let mut j: usize = 0;
            while j < m
                invariant
                    j <= m,
                    i < n,
                    m == container.mounts@.len(),
                    container@ == ordered[i as int],
                    find_mount_from(ordered[i as int].mounts, 0) == find_mount_from(
                        ordered[i as int].mounts,
                        j as int,
                    ),
                decreases m - j,
            {
                let mount = &container.mounts[j];
                proof {
                    assert(mount@ == ordered[i as int].mounts[j as int]);
                }
                if mount.destination == assets {
                    return Ok(mount.source.clone());
                }
                j = j + 1;
            }
        }
        i = i + 1;
    }
    Err(DockerError::Other(String::from_str(
        "Could not find docker container with image name: benchmark-runner-benchmark-runner",
    )))
}

} // verus!
