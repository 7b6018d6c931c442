//! Root and special-use namespace facts for a candidate name.

use vstd::prelude::*;

use crate::catalog::{
    current_root_evidence, current_root_ids, special_use_evidence, special_use_ids,
    SpecialUseName,
};
use crate::lookup::{find_at, has_key};
use crate::requirement_set::ids_view;
use crate::text::{
    find_dot_from, first_dot, label_count, labels, lemma_split_nonempty, lemma_split_single,
    lemma_split_step, lemma_suffix_from_rest, suffix_from,
};
use crate::types::{Claim, ClaimStatus, NamespaceState, RootState, RootTld};

verus! {

/// A claim as plain values: its status, its value and its evidence identifiers.
pub open spec fn claim_model<T>(c: Claim<T>) -> (ClaimStatus, Option<T>, Seq<Seq<char>>) {
    (c.status, c.value, ids_view(c.evidence@))
}

/// The root fact for a root label: the record's own claim, else special use
/// when the special-use registry names the label, else verified absence from
/// the exhaustive current-root list.
pub open spec fn root_state_model(
    record: Option<RootTld>,
    special: Seq<SpecialUseName>,
    root: Seq<char>,
) -> (ClaimStatus, Option<RootState>, Seq<Seq<char>>) {
    match record {
        Some(r) => claim_model(r.state),
        None => if has_key(special, root) {
            (ClaimStatus::Verified, Some(RootState::SpecialUse), seq![special_use_evidence()])
        } else {
            (ClaimStatus::Verified, Some(RootState::Absent), seq![current_root_evidence()])
        },
    }
}

/// Resolves a root fact, using the exhaustive current list for verified absence.
pub fn root_state_for(
    root: &str,
    root_record: Option<&RootTld>,
    special_use: &Vec<SpecialUseName>,
) -> (r: Claim<RootState>)
    ensures
        claim_model(r) == root_state_model(
            match root_record {
                Some(x) => Some(*x),
                None => None,
            },
            special_use@,
            root@,
        ),
{
    match root_record {
        Some(record) => record.state,
        None => {
            let len = root.unicode_len();
            proof {
                assert(root@.skip(0) =~= root@);
            }
            if find_at(special_use, root, len, 0).is_some() {
                let ids = special_use_ids();
                proof {
                    assert(ids_view(ids@) =~= seq![special_use_evidence()]);
                }
                Claim::verified(RootState::SpecialUse, ids)
            } else {
                let ids = current_root_ids();
                proof {
                    assert(ids_view(ids@) =~= seq![current_root_evidence()]);
                }
                Claim::verified(RootState::Absent, ids)
            }
        },
    }
}

/// The special-use registry names the suffix from label `i`.
pub open spec fn special_use_at(special: Seq<SpecialUseName>, d: Seq<char>, i: int) -> bool {
    has_key(special, suffix_from(d, i))
}

/// The name is at or below a special-use name.
pub open spec fn under_special_use(special: Seq<SpecialUseName>, d: Seq<char>) -> bool {
    exists|i: int| 0 <= i < label_count(d) && #[trigger] special_use_at(special, d, i)
}

/// The namespace fact for a name, always backed by the special-use registry.
pub open spec fn namespace_model(special: Seq<SpecialUseName>, d: Seq<char>) -> (
    ClaimStatus,
    Option<NamespaceState>,
    Seq<Seq<char>>,
) {
    (
        ClaimStatus::Verified,
        Some(
            if under_special_use(special, d) {
                NamespaceState::SpecialUse
            } else {
                NamespaceState::Ordinary
            },
        ),
        seq![special_use_evidence()],
    )
}

/// Classifies whether the candidate is at or below an IANA special-use name.
pub fn namespace_state_for(ascii_domain: &str, special_use: &Vec<SpecialUseName>) -> (r: Claim<
    NamespaceState,
>)
    ensures
        claim_model(r) == namespace_model(special_use@, ascii_domain@),
{
    let len = ascii_domain.unicode_len();
    let ids = special_use_ids();
    proof {
        assert(ids_view(ids@) =~= seq![special_use_evidence()]);
    }
    let mut pos: usize = 0;
    let ghost mut i: int = 0;
    proof {
        assert(ascii_domain@.skip(0) =~= ascii_domain@);
        assert(labels(ascii_domain@).skip(0) =~= labels(ascii_domain@));
        lemma_split_nonempty(ascii_domain@, '.');
    }
    loop
        invariant
            len == ascii_domain@.len(),
            pos <= len,
            0 <= i < label_count(ascii_domain@),
            labels(ascii_domain@.skip(pos as int)) == labels(ascii_domain@).skip(i),
            forall|j: int| 0 <= j < i ==> !#[trigger] special_use_at(special_use@, ascii_domain@, j),
            ids_view(ids@) == seq![special_use_evidence()],
        decreases len - pos,
    {
        proof {
            lemma_suffix_from_rest(ascii_domain@, pos as int, i);
        }
        if find_at(special_use, ascii_domain, len, pos).is_some() {
            proof {
                assert(special_use_at(special_use@, ascii_domain@, i));
            }
            return Claim::verified(NamespaceState::SpecialUse, ids);
        }
        let dot = find_dot_from(ascii_domain, len, pos);
        let ghost s = ascii_domain@.skip(pos as int);
        if dot == len {
            proof {
                lemma_split_single(s, '.');
                assert(labels(ascii_domain@).skip(i).len() == 1);
                assert(!under_special_use(special_use@, ascii_domain@)) by {
                    assert forall|j: int| 0 <= j < label_count(ascii_domain@) implies !#[trigger] special_use_at(
                        special_use@,
                        ascii_domain@,
                        j,
                    ) by {
                        if j < i {
                        } else {
                            assert(j == i);
                        }
                    }
                }
            }
            return Claim::verified(NamespaceState::Ordinary, ids);
        }
        proof {
            lemma_split_step(s, '.');
            assert(s.skip(first_dot(s) as int + 1) =~= ascii_domain@.skip(dot + 1));
            assert(labels(ascii_domain@).skip(i).drop_first() =~= labels(ascii_domain@).skip(i + 1));
        }
        pos = dot + 1;
        proof {
            i = i + 1;
        }
    }
}

} // verus!
