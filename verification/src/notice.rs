//! The notice record, the ordered collection of records, and the operations
//! that combine and search collections.
use vstd::prelude::*;
use vstd::seq_lib::*;
use vstd::string::*;

use crate::textutil::contains_seq;

verus! {

/// One filing event.  Every field is independently optional: presence, not
/// some default value, is what carries meaning.
pub struct NoticeRecord {
    pub firm_name: Option<String>,
    pub firm_locations: Option<String>,
    pub affected_employees: Option<String>,
    pub effective_date: Option<String>,
    pub date_received: Option<String>,
}

/// The mathematical value of one record: each field as an optional
/// character sequence.
pub struct NoticeRecordView {
    pub firm_name: Option<Seq<char>>,
    pub firm_locations: Option<Seq<char>>,
    pub affected_employees: Option<Seq<char>>,
    pub effective_date: Option<Seq<char>>,
    pub date_received: Option<Seq<char>>,
}

pub open spec fn opt_view(o: Option<String>) -> Option<Seq<char>> {
    match o {
        Some(s) => Some(s@),
        None => None,
    }
}

impl View for NoticeRecord {
    type V = NoticeRecordView;

    open spec fn view(&self) -> NoticeRecordView {
        NoticeRecordView {
            firm_name: opt_view(self.firm_name),
            firm_locations: opt_view(self.firm_locations),
            affected_employees: opt_view(self.affected_employees),
            effective_date: opt_view(self.effective_date),
            date_received: opt_view(self.date_received),
        }
    }
}

impl NoticeRecordView {
    /// A record with every field absent carries no information.
    pub open spec fn is_all_absent(self) -> bool {
        &&& self.firm_name is None
        &&& self.firm_locations is None
        &&& self.affected_employees is None
        &&& self.effective_date is None
        &&& self.date_received is None
    }

    /// The record with every field absent.
    pub open spec fn empty() -> NoticeRecordView {
        NoticeRecordView {
            firm_name: None,
            firm_locations: None,
            affected_employees: None,
            effective_date: None,
            date_received: None,
        }
    }
}

impl NoticeRecord {
    /// A record with no field set.
    pub fn new() -> (r: NoticeRecord)
        ensures
            r@ == NoticeRecordView::empty(),
    {
        NoticeRecord {
            firm_name: None,
            firm_locations: None,
            affected_employees: None,
            effective_date: None,
            date_received: None,
        }
    }
}

fn clone_opt_string(o: &Option<String>) -> (r: Option<String>)
    ensures
        opt_view(r) == opt_view(*o),
{
    match o {
        None => None,
        Some(s) => Some(s.clone()),
    }
}

impl Clone for NoticeRecord {
    fn clone(&self) -> (r: Self)
        ensures
            r@ == self@,
    {
        NoticeRecord {
            firm_name: clone_opt_string(&self.firm_name),
            firm_locations: clone_opt_string(&self.firm_locations),
            affected_employees: clone_opt_string(&self.affected_employees),
            effective_date: clone_opt_string(&self.effective_date),
            date_received: clone_opt_string(&self.date_received),
        }
    }
}

/// An ordered collection of notice records.  Order is not semantically
/// significant, but merging preserves it: a merge is a stable concatenation.
pub struct NoticeCollection {
    pub notices: Vec<NoticeRecord>,
}

impl View for NoticeCollection {
    type V = Seq<NoticeRecordView>;

    open spec fn view(&self) -> Seq<NoticeRecordView> {
        self.notices@.map_values(|r: NoticeRecord| r@)
    }
}

impl NoticeCollection {
    /// The empty collection.
    pub fn new() -> (r: NoticeCollection)
        ensures
            r@ == Seq::<NoticeRecordView>::empty(),
    {
        let c = NoticeCollection { notices: Vec::new() };
        proof {
            assert(c@ =~= Seq::<NoticeRecordView>::empty());
        }
        c
    }

    /// How many records the collection holds.
    pub fn len(&self) -> (n: usize)
        ensures
            n == self@.len(),
    {
        self.notices.len()
    }

    /// Appends a clone of every record of `other`, keeping both orders.
    pub fn extend_from(&mut self, other: &NoticeCollection)
        ensures
            final(self)@ == old(self)@ + other@,
    {
        let ghost orig = self@;
        let mut i: usize = 0;
        while i < other.notices.len()
            invariant
                i <= other.notices@.len(),
                self@ =~= orig + other@.subrange(0, i as int),
            decreases other.notices@.len() - i,
        {
            let r = other.notices[i].clone();
            let ghost pre = self.notices@;
            let ghost prev_view = self@;
            self.notices.push(r);
            proof {
                let target = orig + other@.subrange(0, i + 1);
                assert(self.notices@ == pre.push(r));
                assert(prev_view.len() == pre.len());
                assert(prev_view == orig + other@.subrange(0, i as int));
                assert(pre.len() == orig.len() + i);
                assert(self@.len() == pre.len() + 1);
                assert(target.len() == self@.len());
                assert forall|j: int| 0 <= j < self@.len() implies self@[j] == target[j] by {
                    assert(self@[j] == self.notices@[j]@);
                    if j < pre.len() {
                        assert(self.notices@[j] == pre[j]);
                        assert(prev_view[j] == pre[j]@);
                        assert(prev_view[j] == (orig + other@.subrange(0, i as int))[j]);
                    } else {
                        assert(self.notices@[j] == r);
                        assert(other@[i as int] == other.notices@[i as int]@);
                    }
                }
                assert(self@ =~= orig + other@.subrange(0, i + 1));
            }
            i += 1;
        }
        proof {
            assert(other@.subrange(0, other@.len() as int) =~= other@);
        }
    }
}

/// A record's firm name matches a lowered search key when the lowering of
/// the name (the empty text when the name is absent) contains the key.
pub open spec fn firm_name_matches(r: NoticeRecordView, lowered_key: Seq<char>) -> bool {
    match r.firm_name {
        Some(name) => contains_seq(lower_text(name), lowered_key),
        None => contains_seq(lower_text(Seq::empty()), lowered_key),
    }
}

/// The Unicode lowering of a character sequence, as `str::to_lowercase`
/// computes it; a function of the characters alone.
pub uninterp spec fn lower_text(s: Seq<char>) -> Seq<char>;

/// Relies on `str::to_lowercase`: the result depends only on the input
/// characters, and an empty input stays empty.
#[verifier::external_body]
fn to_lowercase(s: &str) -> (r: String)
    ensures
        r@ == lower_text(s@),
        s@.len() == 0 ==> r@.len() == 0,
{
    s.to_lowercase()
}

/// The stateless operations over notice collections.
pub struct NoticeCollector {}

impl NoticeCollector {
    /// Combines two collections into one: the records of `current` in
    /// order, then the records of `other` in order.  Neither input is
    /// consumed.
    pub fn reduce_notices(current: &NoticeCollection, other: &NoticeCollection) -> (r:
        NoticeCollection)
        ensures
            r@ == current@ + other@,
    {
        let mut combined = NoticeCollection::new();
        combined.extend_from(current);
        combined.extend_from(other);
        proof {
            assert(Seq::<NoticeRecordView>::empty() + current@ =~= current@);
        }
        combined
    }

    /// Wraps one record as a collection of one.
    pub fn to_notices(current: NoticeRecord) -> (r: NoticeCollection)
        ensures
            r@ =~= seq![current@],
    {
        let ghost rv = current@;
        let mut notices: Vec<NoticeRecord> = Vec::new();
        notices.push(current);
        let c = NoticeCollection { notices };
        proof {
            assert(c@ =~= seq![rv]);
        }
        c
    }

    /// Wraps a vector of records as a collection, keeping the order.
    pub fn to_notices_from_vec(notice_vec: Vec<NoticeRecord>) -> (r: NoticeCollection)
        ensures
            r@ == notice_vec@.map_values(|n: NoticeRecord| n@),
    {
        NoticeCollection { notices: notice_vec }
    }

    /// Keeps, in order, exactly the records whose lowered firm name
    /// contains the lowered search key; a record without a firm name is
    /// treated as having the empty name.  The input is not consumed.
    pub fn search_notices_for_company(notices: &NoticeCollection, company_name_key: &str) -> (r:
        NoticeCollection)
        ensures
            r@ == notices@.filter(
                |rv: NoticeRecordView| firm_name_matches(rv, lower_text(company_name_key@)),
            ),
    {
        let ghost pred = |rv: NoticeRecordView| firm_name_matches(
            rv,
            lower_text(company_name_key@),
        );
        let lowered_key = to_lowercase(company_name_key);
        let mut kept: Vec<NoticeRecord> = Vec::new();
        let mut i: usize = 0;
        proof {
            reveal(Seq::filter);
            assert(notices@.subrange(0, 0) =~= Seq::<NoticeRecordView>::empty());
        }
        while i < notices.notices.len()
            invariant
                i <= notices.notices@.len(),
                notices@.len() == notices.notices@.len(),
                kept@.map_values(|n: NoticeRecord| n@) =~= notices@.subrange(0, i as int).filter(
                    pred,
                ),
                pred == (|rv: NoticeRecordView| firm_name_matches(
                    rv,
                    lower_text(company_name_key@),
                )),
                lowered_key@ == lower_text(company_name_key@),
            decreases notices.notices@.len() - i,
        {
            let record = &notices.notices[i];
            let keep = match &record.firm_name {
                Some(name) => {
                    let lowered_name = to_lowercase(name.as_str());
                    crate::textutil::contains_str(lowered_name.as_str(), lowered_key.as_str())
                },
                None => {
                    let lowered_name = to_lowercase("");
                    proof {
                        reveal_strlit("");
                        assert(""@ =~= Seq::<char>::empty());
                    }
                    crate::textutil::contains_str(lowered_name.as_str(), lowered_key.as_str())
                },
            };
            proof {
                assert(keep == pred(notices@[i as int]));
            }
            if keep {
                kept.push(record.clone());
            }
            proof {
                reveal(Seq::filter);
                let prefix = notices@.subrange(0, i as int);
                let next = notices@.subrange(0, i + 1);
                assert(next.drop_last() =~= prefix);
                assert(next.last() == notices@[i as int]);
                assert(kept@.map_values(|n: NoticeRecord| n@) =~= next.filter(pred));
            }
            i += 1;
        }
        proof {
            assert(notices@.subrange(0, notices@.len() as int) =~= notices@);
        }
        NoticeCollector::to_notices_from_vec(kept)
    }
}

/// Merging is commutative at the multiset level: `reduce_notices(a, b)` and
/// `reduce_notices(b, a)` hold the same records, though possibly in a
/// different order.
pub proof fn lemma_merge_commutes(a: NoticeCollection, b: NoticeCollection)
    ensures
        (a@ + b@).to_multiset() == (b@ + a@).to_multiset(),
{
    broadcast use vstd::multiset::group_multiset_axioms;

    lemma_multiset_commutative(a@, b@);
    lemma_multiset_commutative(b@, a@);
    assert(a@.to_multiset().add(b@.to_multiset()) =~= b@.to_multiset().add(a@.to_multiset()));
}

/// Merging is associative: reducing `a` with `b` and then with `c` yields
/// exactly the same sequence of records as reducing `a` with the reduction
/// of `b` and `c`, so it also yields the same multiset.
pub proof fn lemma_merge_associative(a: NoticeCollection, b: NoticeCollection, c: NoticeCollection)
    ensures
        (a@ + b@) + c@ == a@ + (b@ + c@),
        ((a@ + b@) + c@).to_multiset() == (a@ + (b@ + c@)).to_multiset(),
{
    assert((a@ + b@) + c@ =~= a@ + (b@ + c@));
}

} // verus!
