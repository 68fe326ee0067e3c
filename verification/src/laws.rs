//! Cross-call guarantees of the rendezvous protocol.
//!
//! The contracts of [`crate::engine::Server::handle_message`] and
//! [`crate::engine::Server::register_host`] speak of one call each. The law
//! here chains them: over a whole run of accepted host requests, with no
//! join consuming an entry in between, the codes handed out never repeat.

use vstd::prelude::*;

verus! {

/// A run of accepted host requests, as their codes in order, starting from
/// a registry whose key set is `registered`: each code is fresh against
/// everything registered before it, and is registered before the next.
///
/// This is exactly what the engine guarantees per step: `handle_message`
/// returns a code absent from the current registry, and `register_host`
/// inserts it.
pub open spec fn spec_fresh_host_run(codes: Seq<Seq<u8>>, registered: Set<Seq<u8>>) -> bool
    decreases codes.len(),
{
    codes.len() == 0 || {
        &&& !registered.contains(codes[0])
        &&& spec_fresh_host_run(codes.drop_first(), registered.insert(codes[0]))
    }
}

/// In any run of host requests with no intervening join, the codes handed
/// out are pairwise distinct, and none repeats a key the registry held when
/// the run began.
pub proof fn lemma_host_run_codes_distinct(codes: Seq<Seq<u8>>, registered: Set<Seq<u8>>)
    requires
        spec_fresh_host_run(codes, registered),
    ensures
        forall|i: int| 0 <= i < codes.len() ==> !registered.contains(#[trigger] codes[i]),
        forall|i: int, j: int| 0 <= i < j < codes.len() ==> codes[i] != codes[j],
    decreases codes.len(),
{
    if codes.len() > 0 {
        let rest = codes.drop_first();
        lemma_host_run_codes_distinct(rest, registered.insert(codes[0]));
        assert forall|i: int| 0 <= i < codes.len() implies !registered.contains(
            #[trigger] codes[i],
        ) by {
            if i > 0 {
                assert(rest[i - 1] == codes[i]);
                assert(!registered.insert(codes[0]).contains(rest[i - 1]));
            }
        }
        assert forall|i: int, j: int| 0 <= i < j < codes.len() implies codes[i] != codes[j] by {
            if i == 0 {
                assert(rest[j - 1] == codes[j]);
                assert(!registered.insert(codes[0]).contains(rest[j - 1]));
            } else {
                assert(rest[i - 1] == codes[i]);
                assert(rest[j - 1] == codes[j]);
            }
        }
    }
}

} // verus!
