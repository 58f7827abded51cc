//! Identity assignment and validation.
//!
//! An identity is a string token. It exists from the moment a position
//! record carrying it is durably written; there is no separate identity
//! table, so the set of known identities is the distinct-identity
//! projection of the persisted positions. A caller either supplies an
//! identity, which must already be known, or is minted a fresh one that
//! collides with no known identity at mint time.
//!
//! The mint loop draws random candidates and retries on collision. The
//! caller is expected to hold the process-wide minting lock around the
//! read of the known set and the loop, and to release it before the
//! subsequent store write; the library itself takes no lock.

use vstd::prelude::*;
use crate::error::ServiceError;
use crate::position::StoredPosition;

verus! {

/// How many colliding draws the mint loop tolerates before it reports the
/// generator as exhausted instead of looping on.
pub const MAX_MINT_ATTEMPTS: usize = 4096;

/// The distinct identities among a list of name strings.
pub open spec fn identity_set(names: Seq<String>) -> Set<Seq<char>> {
    Set::new(|id: Seq<char>| exists|i: int| 0 <= i < names.len() && names[i]@ == id)
}

/// The distinct-identity projection of a list of position records: the set
/// of identity values the records carry.
pub open spec fn identities_of(records: Seq<StoredPosition>) -> Set<Seq<char>> {
    Set::new(|id: Seq<char>| exists|i: int| 0 <= i < records.len() && records[i].user@ == id)
}

/// The set of identities known at one read of the store. A value of this
/// type is a snapshot: it does not follow later writes.
pub struct KnownIdentities {
    names: Vec<String>,
}

impl View for KnownIdentities {
    type V = Set<Seq<char>>;

    closed spec fn view(&self) -> Set<Seq<char>> {
        identity_set(self.names@)
    }
}

impl KnownIdentities {
    /// Wraps the distinct name strings one read of the store returned.
    pub fn from_names(names: Vec<String>) -> (k: KnownIdentities)
        ensures
            k@ == identity_set(names@),
    {
        KnownIdentities { names }
    }

    /// Projects the distinct identities out of a list of position records.
    pub fn from_records(records: &Vec<StoredPosition>) -> (k: KnownIdentities)
        ensures
            k@ == identities_of(records@),
    {
        let mut names: Vec<String> = Vec::new();
        let mut i: usize = 0;
        while i < records.len()
            invariant
                i <= records@.len(),
                names@.len() == i,
                forall|j: int| 0 <= j < i ==> names@[j]@ == records@[j].user@,
            decreases records@.len() - i,
        {
            names.push(records[i].user.clone());
            i = i + 1;
        }
        let k = KnownIdentities { names };
        proof {
            assert forall|id: Seq<char>|
                k@.contains(id) <==> identities_of(records@).contains(id) by {
                if k@.contains(id) {
                    let j = choose|j: int| 0 <= j < k.names@.len() && k.names@[j]@ == id;
                    assert(records@[j].user@ == id);
                }
                if identities_of(records@).contains(id) {
                    let j = choose|j: int| 0 <= j < records@.len() && records@[j].user@ == id;
                    assert(k.names@[j]@ == id);
                }
            }
            assert(k@ =~= identities_of(records@));
        }
        k
    }

    /// Membership check: true exactly when `identity` is known. Used when
    /// a caller supplies an identity explicitly.
    pub fn validate(&self, identity: &String) -> (r: bool)
        ensures
            r == self@.contains(identity@),
    {
        let mut i: usize = 0;
        while i < self.names.len()
            invariant
                i <= self.names@.len(),
                forall|j: int| 0 <= j < i ==> self.names@[j]@ != identity@,
            decreases self.names@.len() - i,
        {
            if self.names[i] == *identity {
                assert(self.names@[i as int]@ == identity@);
                return true;
            }
            i = i + 1;
        }
        false
    }
}

/// What one drawn candidate leads to in the mint loop.
pub enum MintStep {
    /// The candidate collides with no known identity and is accepted.
    Accepted(String),
    /// The candidate is already known; the loop retries.
    Collision,
    /// The generator yielded no candidate; minting fails.
    Exhausted,
}

/// The decision the mint loop takes on one drawn candidate: a fresh
/// candidate is accepted, a known one is a collision, and no candidate at
/// all means the generator is exhausted.
pub fn mint_step(candidate: Option<String>, known: &KnownIdentities) -> (s: MintStep)
    ensures
        candidate is None ==> s == MintStep::Exhausted,
        candidate matches Some(n) ==> if known@.contains(n@) {
            s == MintStep::Collision
        } else {
            s == MintStep::Accepted(n)
        },
{
    match candidate {
        None => MintStep::Exhausted,
        Some(name) => {
            if known.validate(&name) {
                MintStep::Collision
            } else {
                MintStep::Accepted(name)
            }
        },
    }
}

/// Relies on `names::Generator`: the candidate source behind minting.
#[verifier::external_type_specification]
#[verifier::external_body]
pub struct ExNameGenerator<'a>(names::Generator<'a>);

/// Relies on `names::Generator::with_naming`: a generator over the crate's
/// built-in adjective and noun corpora, with a number appended to each
/// candidate.
#[verifier::external_body]
fn numbered_generator() -> names::Generator<'static> {
    names::Generator::with_naming(names::Name::Numbered)
}

/// Relies on the `Iterator::next` impl of `names::Generator`: draws one
/// random candidate name. The draw is random, so nothing is claimed of the
/// result; with the built-in corpora it never fails, but an empty draw
/// stays a defined outcome.
#[verifier::external_body]
fn draw_candidate(generator: &mut names::Generator<'static>) -> Option<String> {
    generator.next()
}

/// Mints a fresh identity: draws candidates and retries on collision until
/// one collides with no identity in `known`. Fails only when the generator
/// is exhausted: it yields no candidate, or every draw within the attempt
/// budget collides.
///
/// `known` is the snapshot read under the minting lock; the returned
/// identity is fresh with respect to that snapshot only. A write that
/// becomes durable after the snapshot was taken is not seen here: that
/// window is the documented race of concurrent first-time callers.
pub fn assign_new(known: &KnownIdentities) -> (r: Result<String, ServiceError>)
    ensures
        r matches Ok(name) ==> !known@.contains(name@),
        r matches Err(e) ==> e == ServiceError::Exhausted,
{
    let mut generator = numbered_generator();
    let mut attempts: usize = 0;
    while attempts < MAX_MINT_ATTEMPTS
        invariant
            attempts <= MAX_MINT_ATTEMPTS,
        decreases MAX_MINT_ATTEMPTS - attempts,
    {
        let candidate = draw_candidate(&mut generator);
        match mint_step(candidate, known) {
            MintStep::Accepted(name) => {
                return Ok(name);
            },
            MintStep::Collision => {
                attempts = attempts + 1;
            },
            MintStep::Exhausted => {
                return Err(ServiceError::Exhausted);
            },
        }
    }
    Err(ServiceError::Exhausted)
}

/// Settles the identity of a creation request: a supplied identity must be
/// known, and a request without one is minted a fresh identity under the
/// caller-held minting lock.
pub fn resolve_identity(user: Option<String>, known: &KnownIdentities) -> (r: Result<
    String,
    ServiceError,
>)
    ensures
        user matches Some(u) ==> if known@.contains(u@) {
            r == Ok::<String, ServiceError>(u)
        } else {
            r == Err::<String, ServiceError>(ServiceError::NotFound(u))
        },
        user is None ==> {
            &&& r matches Ok(name) ==> !known@.contains(name@)
            &&& r matches Err(e) ==> e == ServiceError::Exhausted
        },
{
    match user {
        Some(u) => {
            if known.validate(&u) {
                Ok(u)
            } else {
                Err(ServiceError::NotFound(u))
            }
        },
        None => assign_new(known),
    }
}

/// Two mints in sequence return distinct identities when the first one's
/// write is already visible to the second one's read: each mint returns an
/// identity outside the known set it read, so a known set that contains
/// the first identity cannot yield it again. When the second read does not
/// see the first write — the documented race window of concurrent
/// first-time callers — no such conclusion holds and the two mints may
/// return the same identity.
pub proof fn lemma_mint_distinct_when_persisted(
    known_first: Set<Seq<char>>,
    known_second: Set<Seq<char>>,
    first: Seq<char>,
    second: Seq<char>,
)
    requires
        !known_first.contains(first),
        known_second.contains(first),
        !known_second.contains(second),
    ensures
        first != second,
{
}

/// Validation is membership in the distinct-identity projection of the
/// persisted positions: against a known set read from the records, an
/// identity validates exactly when some record carries it. This holds of
/// any record history.
pub proof fn lemma_validate_is_distinct_projection(
    known: KnownIdentities,
    records: Seq<StoredPosition>,
    identity: Seq<char>,
)
    requires
        known@ == identities_of(records),
    ensures
        known@.contains(identity) <==> identities_of(records).contains(identity),
{
}

/// An identity exists from the moment its first position is durably
/// written: once a record carrying it is appended, it is in the
/// distinct-identity projection, so it validates from then on.
pub proof fn lemma_written_identity_is_known(records: Seq<StoredPosition>, p: StoredPosition)
    ensures
        identities_of(records.push(p)).contains(p.user@),
{
    assert(records.push(p)[records.len() as int].user@ == p.user@);
}

/// Durably writing one record extends the known identities by exactly that
/// record's identity.
pub proof fn lemma_identities_after_insert(records: Seq<StoredPosition>, p: StoredPosition)
    ensures
        identities_of(records.push(p)) == identities_of(records).insert(p.user@),
{
    assert forall|id: Seq<char>|
        identities_of(records.push(p)).contains(id) <==> identities_of(records).insert(
            p.user@,
        ).contains(id) by {
        if identities_of(records.push(p)).contains(id) {
            let j = choose|j: int|
                0 <= j < records.push(p).len() && records.push(p)[j].user@ == id;
            if j < records.len() {
                assert(records[j].user@ == id);
            }
        }
        if identities_of(records).insert(p.user@).contains(id) {
            if identities_of(records).contains(id) {
                let j = choose|j: int| 0 <= j < records.len() && records[j].user@ == id;
                assert(records.push(p)[j].user@ == id);
            } else {
                assert(records.push(p)[records.len() as int].user@ == id);
            }
        }
    }
    assert(identities_of(records.push(p)) =~= identities_of(records).insert(p.user@));
}

} // verus!
