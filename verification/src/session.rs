//! The session store's decision logic: how workspaces are named under the
//! shared root, which entries a garbage-collection sweep removes, and when
//! an existing session may be reused.
//!
//! The filesystem work itself (creating directories, reading metadata,
//! deleting trees) happens outside; everything here is the pure part that
//! decides, and it is what the sweep's safety rests on: only expired,
//! reserved-prefixed entries are ever chosen for deletion, and a second
//! sweep over the survivors chooses nothing.

use vstd::prelude::*;
use vstd::string::StringExecFns;
use crate::error::ServiceError;
use crate::text;

verus! {

/// The reserved name prefix that marks a directory under the shared
/// temporary root as one of this service's session workspaces.
pub open spec fn reserved_prefix() -> Seq<char> {
    "flatterer-"@
}

/// A session workspace is the reserved prefix followed by the session's
/// identifier.
pub open spec fn spec_session_dir_name(id: Seq<char>) -> Seq<char> {
    reserved_prefix() + id
}

/// Builds the directory name of the session with identifier `id`.
pub fn session_dir_name(id: &str) -> (r: String)
    ensures
        r@ == spec_session_dir_name(id@),
{
    let mut s = "flatterer-".to_owned();
    s.append(id);
    s
}

/// Distinct identifiers always name distinct workspaces, and equal ones
/// the same workspace: resolving the identifier a creation returned leads
/// back to exactly the directory that creation wrote.
pub proof fn lemma_session_dir_name_injective(a: Seq<char>, b: Seq<char>)
    ensures
        (spec_session_dir_name(a) == spec_session_dir_name(b)) <==> (a == b),
{
    if spec_session_dir_name(a) == spec_session_dir_name(b) {
        assert(a =~= spec_session_dir_name(a).skip(reserved_prefix().len() as int));
        assert(b =~= spec_session_dir_name(b).skip(reserved_prefix().len() as int));
    }
}

/// Whether a directory name carries the service's reserved prefix.
pub open spec fn spec_is_reserved(name: Seq<char>) -> bool {
    text::spec_starts_with(name, reserved_prefix())
}

pub fn is_reserved_name(name: &str) -> (r: bool)
    ensures
        r == spec_is_reserved(name@),
{
    text::str_starts_with(name, "flatterer-")
}

/// One directory entry under the shared temporary root, as the sweep sees
/// it: its name, and its last-modified time in seconds — or nothing, where
/// the metadata could not be read.
#[derive(Debug)]
pub struct TmpEntry {
    pub name: String,
    pub modified: Option<u64>,
}

/// An entry is expired when it is one of the service's own workspaces,
/// its metadata was readable, and its age at `now` exceeds `ttl` seconds.
/// An entry whose metadata could not be read — or whose modification time
/// lies in the future — is deliberately kept: the sweep fails open.
pub open spec fn spec_expired(e: TmpEntry, now: u64, ttl: u64) -> bool {
    &&& spec_is_reserved(e.name@)
    &&& e.modified matches Some(m) && m <= now && now - m > ttl
}

/// Selects the entries an expiry sweep must delete: exactly the expired
/// ones, by index, in order.
pub fn sweep_plan(entries: &Vec<TmpEntry>, now: u64, ttl: u64) -> (plan: Vec<usize>)
    ensures
        forall|k: int|
            0 <= k < plan@.len() ==> plan@[k] < entries@.len() && spec_expired(
                entries@[plan@[k] as int],
                now,
                ttl,
            ),
        forall|i: int|
            0 <= i < entries@.len() && spec_expired(entries@[i], now, ttl) ==> plan@.contains(
                i as usize,
            ),
        forall|k1: int, k2: int| 0 <= k1 < k2 < plan@.len() ==> plan@[k1] < plan@[k2],
{
    let mut plan: Vec<usize> = Vec::new();
    let mut i: usize = 0;
    while i < entries.len()
        invariant
            i <= entries@.len(),
            forall|k: int|
                0 <= k < plan@.len() ==> plan@[k] < i && spec_expired(
                    entries@[plan@[k] as int],
                    now,
                    ttl,
                ),
            forall|j: int|
                0 <= j < i && spec_expired(entries@[j], now, ttl) ==> plan@.contains(j as usize),
            forall|k1: int, k2: int| 0 <= k1 < k2 < plan@.len() ==> plan@[k1] < plan@[k2],
        decreases entries@.len() - i,
    {
        let e = &entries[i];
        let reserved = is_reserved_name(e.name.as_str());
        let expired = reserved && match e.modified {
            Some(m) => m <= now && now - m > ttl,
            None => false,
        };
        if expired {
            let ghost plan0 = plan@;
            plan.push(i);
            proof {
                assert forall|j: int|
                    0 <= j <= i && spec_expired(entries@[j], now, ttl) implies plan@.contains(
                    j as usize,
                ) by {
                    if j == i {
                        assert(plan@[plan0.len() as int] == i as usize);
                    } else {
                        assert(plan0.contains(j as usize));
                        let k = choose|k: int| 0 <= k < plan0.len() && plan0[k] == j as usize;
                        assert(plan@[k] == j as usize);
                    }
                }
            }
        }
        i = i + 1;
    }
    plan
}

/// The entries a sweep leaves behind.
pub open spec fn spec_survivors(entries: Seq<TmpEntry>, now: u64, ttl: u64) -> Seq<TmpEntry> {
    entries.filter(|e: TmpEntry| !spec_expired(e, now, ttl))
}

/// Sweeping is idempotent: none of the entries a sweep leaves behind is
/// expired, so a second sweep over them, with no new entries and at the
/// same instant, deletes nothing and leaves them as they are.
pub proof fn lemma_sweep_idempotent(entries: Seq<TmpEntry>, now: u64, ttl: u64)
    ensures
        forall|i: int|
            0 <= i < spec_survivors(entries, now, ttl).len() ==> !spec_expired(
                #[trigger] spec_survivors(entries, now, ttl)[i],
                now,
                ttl,
            ),
        spec_survivors(spec_survivors(entries, now, ttl), now, ttl) == spec_survivors(
            entries,
            now,
            ttl,
        ),
    decreases entries.len(),
{
    reveal(Seq::filter);
    let pred = |e: TmpEntry| !spec_expired(e, now, ttl);
    if entries.len() == 0 {
        assert(spec_survivors(entries, now, ttl) =~= Seq::<TmpEntry>::empty());
        assert(spec_survivors(spec_survivors(entries, now, ttl), now, ttl) =~= Seq::<
            TmpEntry,
        >::empty());
    } else {
        lemma_sweep_idempotent(entries.drop_last(), now, ttl);
        let prior = spec_survivors(entries.drop_last(), now, ttl);
        if pred(entries.last()) {
            assert(spec_survivors(entries, now, ttl) =~= prior.push(entries.last()));
            assert((prior.push(entries.last())).drop_last() =~= prior);
            assert((prior.push(entries.last())).last() == entries.last());
            assert(spec_survivors(spec_survivors(entries, now, ttl), now, ttl) =~= spec_survivors(
                prior,
                now,
                ttl,
            ).push(entries.last()));
        } else {
            assert(spec_survivors(entries, now, ttl) =~= prior);
        }
    }
}

/// A staged input survives the round trip.  With the workspace root
/// modelled as a map from directory names to staged input bytes: staging
/// a session's content and later resolving its identifier finds exactly
/// that content, even after another session with a different identifier
/// staged content of its own — distinct identifiers can never share a
/// workspace.
pub proof fn lemma_workspace_round_trip(
    store: Map<Seq<char>, Seq<u8>>,
    id: Seq<char>,
    content: Seq<u8>,
    other_id: Seq<char>,
    other_content: Seq<u8>,
)
    requires
        other_id != id,
    ensures
        store.insert(spec_session_dir_name(id), content)[spec_session_dir_name(id)] == content,
        store.insert(spec_session_dir_name(id), content).insert(
            spec_session_dir_name(other_id),
            other_content,
        )[spec_session_dir_name(id)] == content,
{
    lemma_session_dir_name_injective(id, other_id);
    vstd::map::axiom_map_insert_same(store, spec_session_dir_name(id), content);
    vstd::map::axiom_map_insert_different(
        store.insert(spec_session_dir_name(id), content),
        spec_session_dir_name(id),
        spec_session_dir_name(other_id),
        other_content,
    );
}

/// Relies on uuid::Uuid::new_v4 and uuid::fmt::Hyphenated: a freshly
/// generated version-4 identifier, rendered in the hyphenated form the
/// crate documents as exactly 36 characters.  The value is random, so
/// nothing else is assumed of it.
#[verifier::external_body]
fn fresh_uuid_hyphenated() -> (r: String)
    ensures
        r@.len() == 36,
{
    uuid::Uuid::new_v4().hyphenated().to_string()
}

/// A newly allocated session: its opaque identifier and the workspace
/// directory name derived from it.
pub struct NewSession {
    pub id: String,
    pub dir_name: String,
}

/// Allocates a fresh session name: a generated identifier, and the
/// reserved-prefixed directory its workspace lives under.  The directory
/// name is a function of the identifier alone, so resolving the returned
/// identifier later leads back to exactly this workspace.
pub fn new_session_name() -> (s: NewSession)
    ensures
        s.dir_name@ == spec_session_dir_name(s.id@),
        s.id@.len() == 36,
{
    let id = fresh_uuid_hyphenated();
    let dir_name = session_dir_name(id.as_str());
    NewSession { id, dir_name }
}

/// Whether an existing session may be reused: its workspace must still
/// hold the staged input artifact.  A missing workspace or input is the
/// client's error — the identifier is unknown — not a service fault.
pub fn resolve_session(input_exists: bool) -> (r: Result<(), ServiceError>)
    ensures
        r is Ok <==> input_exists,
        r matches Err(e) ==> e matches ServiceError::BadInput { message } && message@
            == unknown_session_message_spec(),
{
    if input_exists {
        Ok(())
    } else {
        Err(
            ServiceError::BadInput {
                message:
                    "id does not exist, you may need to ask you file to be downloaded again or to upload the file again.".to_owned(),
            },
        )
    }
}

/// The message a request with an unknown or incomplete session identifier
/// is rejected with.
pub open spec fn unknown_session_message_spec() -> Seq<char> {
    "id does not exist, you may need to ask you file to be downloaded again or to upload the file again."@
}

} // verus!
