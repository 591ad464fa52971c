//! The disclosure policy of a credential: the attributes of an identity
//! object that the credential reveals.
//!
//! A policy is built by selecting tags from the identity object's attribute
//! list. No tag may be selected twice, and every selected tag must be in the
//! list. The policy carries the list's validity window unchanged.

use vstd::prelude::*;
use std::collections::BTreeMap;
use crate::errors::WalletError;

verus! {

/// A month of a year, the granularity of validity windows.
#[derive(Clone, Copy, Debug, PartialEq, Eq, Structural)]
pub struct YearMonth {
    pub year: u16,
    pub month: u8,
}

/// The attributes that an identity provider signed, by tag, with the window
/// in which the identity object is valid.
#[derive(Debug, PartialEq, Eq)]
pub struct AttributeList {
    pub valid_to: YearMonth,
    pub created_at: YearMonth,
    pub max_accounts: u8,
    pub attributes: BTreeMap<u8, String>,
}

/// An attribute list as a value: its window, its bound on accounts, and
/// its attributes by tag.
pub struct AttributeListView {
    pub valid_to: YearMonth,
    pub created_at: YearMonth,
    pub max_accounts: u8,
    pub attributes: Map<u8, String>,
}

impl View for AttributeList {
    type V = AttributeListView;

    open spec fn view(&self) -> AttributeListView {
        AttributeListView {
            valid_to: self.valid_to,
            created_at: self.created_at,
            max_accounts: self.max_accounts,
            attributes: self.attributes@,
        }
    }
}

/// The attributes that a credential reveals, by tag.
#[derive(Debug, PartialEq, Eq)]
pub struct Policy {
    pub valid_to: YearMonth,
    pub created_at: YearMonth,
    pub revealed: BTreeMap<u8, String>,
}

/// A policy as a value: its window and the attributes it reveals, by tag.
pub struct PolicyView {
    pub valid_to: YearMonth,
    pub created_at: YearMonth,
    pub revealed: Map<u8, String>,
}

impl View for Policy {
    type V = PolicyView;

    open spec fn view(&self) -> PolicyView {
        PolicyView {
            valid_to: self.valid_to,
            created_at: self.created_at,
            revealed: self.revealed@,
        }
    }
}

/// What selecting `tags`, in order, from the attributes `known` gives: the
/// selected attributes, or the failure at the first tag that is unknown or
/// was selected before.
pub open spec fn disclosure(known: Map<u8, String>, tags: Seq<u8>) -> Result<
    Map<u8, String>,
    WalletError,
>
    decreases tags.len(),
{
    if tags.len() == 0 {
        Ok(Map::empty())
    } else {
        match disclosure(known, tags.drop_last()) {
            Err(e) => Err(e),
            Ok(selected) => {
                let tag = tags.last();
                if !known.contains_key(tag) {
                    Err(WalletError::UnknownAttribute { tag })
                } else if selected.contains_key(tag) {
                    Err(WalletError::DuplicateAttribute { tag })
                } else {
                    Ok(selected.insert(tag, known[tag]))
                }
            },
        }
    }
}

/// Whether some tag occurs at two positions of `tags`.
pub open spec fn has_repeated_tag(tags: Seq<u8>) -> bool {
    exists|i: int, j: int| 0 <= i < j < tags.len() && tags[i] == tags[j]
}

/// Whether every tag of `tags` is among the attributes `known`.
pub open spec fn all_tags_known(known: Map<u8, String>, tags: Seq<u8>) -> bool {
    forall|i: int| 0 <= i < tags.len() ==> known.contains_key(#[trigger] tags[i])
}

/// Selects the attributes tagged `tags` from `list`.
///
/// Fails at the first tag that is not in the list, or that occurred earlier
/// in `tags`.
pub fn build_policy(list: &AttributeList, tags: &Vec<u8>) -> (r: Result<Policy, WalletError>)
    ensures
        match r {
            Ok(policy) => disclosure(list.attributes@, tags@) == Ok::<_, WalletError>(
                policy.revealed@,
            ) && policy.valid_to == list.valid_to && policy.created_at == list.created_at,
            Err(e) => disclosure(list.attributes@, tags@) == Err::<Map<u8, String>, _>(e),
        },
{
    broadcast use vstd::std_specs::btree::group_btree_axioms;

    proof {
        lemma_tags_are_ordered();
    }
    let mut revealed: BTreeMap<u8, String> = BTreeMap::new();
    let mut i: usize = 0;
    while i < tags.len()
        invariant
            i <= tags.len(),
            disclosure(list.attributes@, tags@.take(i as int)) == Ok::<_, WalletError>(revealed@),
        decreases tags.len() - i,
    {
        let tag: u8 = tags[i];
        proof {
            lemma_tags_are_ordered();
            assert(tags@.take(i + 1).drop_last() == tags@.take(i as int));
            assert(tags@.take(i + 1).last() == tag);
        }
        match list.attributes.get(&tag) {
            None => {
                proof {
                    lemma_disclosure_failure_persists(list.attributes@, tags@, i + 1);
                }
                return Err(WalletError::UnknownAttribute { tag });
            },
            Some(value) => {
                if revealed.insert(tag, value.clone()).is_some() {
                    proof {
                        lemma_disclosure_failure_persists(list.attributes@, tags@, i + 1);
                    }
                    return Err(WalletError::DuplicateAttribute { tag });
                }
            },
        }
        i += 1;
    }
    proof {
        assert(tags@.take(i as int) == tags@);
    }
    Ok(Policy { valid_to: list.valid_to, created_at: list.created_at, revealed })
}

/// Tags are ordered as the integers they are, which is what a map keyed by
/// them relies on.
proof fn lemma_tags_are_ordered()
    ensures
        vstd::laws_cmp::obeys_cmp::<u8>(),
{
    broadcast use vstd::laws_cmp::group_laws_cmp;

}

/// A failure within the first `n` tags is the failure of the whole
/// selection.
pub proof fn lemma_disclosure_failure_persists(known: Map<u8, String>, tags: Seq<u8>, n: int)
    requires
        0 <= n <= tags.len(),
        disclosure(known, tags.take(n)) is Err,
    ensures
        disclosure(known, tags) == disclosure(known, tags.take(n)),
    decreases tags.len() - n,
{
    if n < tags.len() {
        assert(tags.take(n + 1).drop_last() == tags.take(n));
        lemma_disclosure_failure_persists(known, tags, n + 1);
    } else {
        assert(tags.take(n) == tags);
    }
}

/// A successful selection holds exactly the selected tags, each with the
/// value that the list gives it; the tags are all known and none is repeated.
pub proof fn lemma_disclosure_success(known: Map<u8, String>, tags: Seq<u8>)
    requires
        disclosure(known, tags) is Ok,
    ensures
        all_tags_known(known, tags),
        !has_repeated_tag(tags),
        disclosure(known, tags)->Ok_0.dom() == tags.to_set(),
        forall|tag: u8| #[trigger]
            disclosure(known, tags)->Ok_0.contains_key(tag) ==> disclosure(known, tags)->Ok_0[tag]
                == known[tag],
    decreases tags.len(),
{
    if tags.len() > 0 {
        let front = tags.drop_last();
        lemma_disclosure_success(known, front);
        let selected = disclosure(known, front)->Ok_0;
        let tag = tags.last();
        assert forall|i: int| 0 <= i < tags.len() implies known.contains_key(
            #[trigger] tags[i],
        ) by {
            if i < tags.len() - 1 {
                assert(front[i] == tags[i]);
            }
        }
        assert(!has_repeated_tag(tags)) by {
            if has_repeated_tag(tags) {
                let (i, j) = choose|i: int, j: int|
                    0 <= i < j < tags.len() && tags[i] == tags[j];
                if j < tags.len() - 1 {
                    assert(front[i] == front[j]);
                } else {
                    assert(front[i] == tag);
                    assert(front.to_set().contains(tag));
                }
            }
        }
        assert(disclosure(known, tags)->Ok_0.dom() =~= tags.to_set()) by {
            assert forall|t: u8| tags.to_set().contains(t) <==> (front.to_set().contains(t) || t
                == tag) by {
                if tags.to_set().contains(t) {
                    let i = choose|i: int| 0 <= i < tags.len() && tags[i] == t;
                    if i < tags.len() - 1 {
                        assert(front[i] == t);
                    }
                }
                if front.to_set().contains(t) {
                    let i = choose|i: int| 0 <= i < front.len() && front[i] == t;
                    assert(tags[i] == t);
                }
                if t == tag {
                    assert(tags[tags.len() - 1] == t);
                }
            }
        }
    } else {
        assert(disclosure(known, tags)->Ok_0.dom() =~= tags.to_set());
    }
}

/// A selection in which some tag is repeated fails.
pub proof fn lemma_repeated_tag_rejected(known: Map<u8, String>, tags: Seq<u8>)
    requires
        has_repeated_tag(tags),
    ensures
        disclosure(known, tags) is Err,
{
    if disclosure(known, tags) is Ok {
        lemma_disclosure_success(known, tags);
    }
}

/// A selection of known tags in which some tag is repeated fails because of
/// the repetition.
pub proof fn lemma_repeated_known_tag_is_duplicate(known: Map<u8, String>, tags: Seq<u8>)
    requires
        has_repeated_tag(tags),
        all_tags_known(known, tags),
    ensures
        disclosure(known, tags) matches Err(WalletError::DuplicateAttribute { tag })
            && tags.contains(tag),
{
    lemma_repeated_tag_rejected(known, tags);
    lemma_failure_names_a_tag(known, tags);
}

/// A selection with a tag that the list does not hold fails.
pub proof fn lemma_unknown_tag_rejected(known: Map<u8, String>, tags: Seq<u8>)
    requires
        !all_tags_known(known, tags),
    ensures
        disclosure(known, tags) is Err,
{
    if disclosure(known, tags) is Ok {
        lemma_disclosure_success(known, tags);
    }
}

/// A selection without repetition, with a tag that the list does not hold,
/// fails because of that tag.
pub proof fn lemma_unknown_tag_without_repetition(known: Map<u8, String>, tags: Seq<u8>)
    requires
        !all_tags_known(known, tags),
        !has_repeated_tag(tags),
    ensures
        disclosure(known, tags) matches Err(WalletError::UnknownAttribute { tag })
            && tags.contains(tag) && !known.contains_key(tag),
{
    lemma_unknown_tag_rejected(known, tags);
    lemma_failure_names_a_tag(known, tags);
}

/// A failed selection names one of its tags: an unknown one, or one that is
/// known and repeated.
pub proof fn lemma_failure_names_a_tag(known: Map<u8, String>, tags: Seq<u8>)
    requires
        disclosure(known, tags) is Err,
    ensures
        match disclosure(known, tags)->Err_0 {
            WalletError::UnknownAttribute { tag } => tags.contains(tag) && !known.contains_key(
                tag,
            ),
            WalletError::DuplicateAttribute { tag } => tags.contains(tag) && known.contains_key(
                tag,
            ) && has_repeated_tag(tags),
            _ => false,
        },
    decreases tags.len(),
{
    let front = tags.drop_last();
    let tag = tags.last();
    assert(tags[tags.len() - 1] == tag);
    if disclosure(known, front) is Err {
        lemma_failure_names_a_tag(known, front);
        match disclosure(known, front)->Err_0 {
            WalletError::UnknownAttribute { tag: t } => {
                let i = choose|i: int| 0 <= i < front.len() && front[i] == t;
                assert(tags[i] == t);
            },
            WalletError::DuplicateAttribute { tag: t } => {
                let i = choose|i: int| 0 <= i < front.len() && front[i] == t;
                assert(tags[i] == t);
                let (a, b) = choose|a: int, b: int|
                    0 <= a < b < front.len() && front[a] == front[b];
                assert(tags[a] == tags[b]);
            },
            _ => {},
        }
    } else if known.contains_key(tag) {
        lemma_disclosure_success(known, front);
        let selected = disclosure(known, front)->Ok_0;
        assert(front.to_set().contains(tag));
        let i = choose|i: int| 0 <= i < front.len() && front[i] == tag;
        assert(tags[i] == tags[tags.len() - 1]);
    }
}

} // verus!
