//! Queries over the state for listing: settlements by owner, service and status, and the
//! claims on a settlement.
use crate::encoding::{lowercase, to_lowercase};
use crate::state::settlement::{Claim, ClaimView, Settlement, SettlementStatus, SettlementView};
use crate::state::State;
use crate::text::owned;
use vstd::prelude::*;

verus! {

broadcast use vstd::string::group_string_axioms;

/// The name of a settlement status, in lowercase.
pub open spec fn status_label(st: SettlementStatus) -> Seq<char> {
    match st {
        SettlementStatus::Proposed => "proposed"@,
        SettlementStatus::Finalized => "finalized"@,
        SettlementStatus::Claimed => "claimed"@,
        SettlementStatus::Disputed => "disputed"@,
        SettlementStatus::Resolved => "resolved"@,
    }
}

/// The name of a settlement status, in lowercase.
pub fn status_label_text(st: SettlementStatus) -> (r: &'static str)
    ensures
        r@ == status_label(st),
{
    match st {
        SettlementStatus::Proposed => "proposed",
        SettlementStatus::Finalized => "finalized",
        SettlementStatus::Claimed => "claimed",
        SettlementStatus::Disputed => "disputed",
        SettlementStatus::Resolved => "resolved",
    }
}

/// `n` occurs in `h` as a run of consecutive characters.
pub open spec fn has_substring(h: Seq<char>, n: Seq<char>) -> bool {
    exists|i: int| 0 <= i && i + n.len() <= h.len() && #[trigger] h.subrange(i, i + n.len()) == n
}

/// Whether `n` occurs in `h`.
pub fn contains_text(h: &str, n: &str) -> (b: bool)
    ensures
        b == has_substring(h@, n@),
{
    let hl = h.unicode_len();
    let nl = n.unicode_len();
    if nl > hl {
        return false;
    }
    let mut i: usize = 0;
    while i <= hl - nl
        invariant
            hl == h@.len(),
            nl == n@.len(),
            nl <= hl,
            i <= hl - nl + 1,
            forall|j: int| 0 <= j < i ==> #[trigger] h@.subrange(j, j + nl) != n@,
        decreases hl - nl + 1 - i,
    {
        let mut k: usize = 0;
        let mut same = true;
        while k < nl
            invariant
                hl == h@.len(),
                nl == n@.len(),
                i + nl <= hl,
                k <= nl,
                same == (forall|q: int| 0 <= q < k ==> h@[i + q] == n@[q]),
            decreases nl - k,
        {
            if h.get_char(i + k) != n.get_char(k) {
                same = false;
            }
            k = k + 1;
        }
        if same {
            assert(h@.subrange(i as int, i + nl) =~= n@);
            return true;
        }
        proof {
            let q = choose|q: int| 0 <= q < nl && h@[i + q] != n@[q];
            assert(h@.subrange(i as int, i + nl)[q] != n@[q]);
        }
        i = i + 1;
    }
    proof {
        assert forall|j: int| 0 <= j && j + n@.len() <= h@.len() implies #[trigger] h@.subrange(j, j + n@.len()) != n@ by {
            assert(j < i);
        }
    }
    false
}

/// A settlement listed under the given filters: same owner, same service, and a status whose
/// lowercase name contains the lowercased query; a filter not given lets everything through.
pub open spec fn settlement_listed(
    st: SettlementView,
    owner: Option<Seq<char>>,
    service_id: Option<Seq<char>>,
    status: Option<Seq<char>>,
) -> bool {
    &&& (owner matches Some(o) ==> st.owner == o)
    &&& (service_id matches Some(sv) ==> st.service_id == sv)
    &&& (status matches Some(q) ==> has_substring(status_label(st.status), lowercase(q)))
}

/// The view of an optional text.
pub open spec fn opt_view(o: Option<&str>) -> Option<Seq<char>> {
    match o {
        Some(s) => Some(s@),
        None => None,
    }
}

/// The settlements of `s` in iteration order.
pub open spec fn settlement_values(s: Seq<(Seq<char>, SettlementView)>) -> Seq<SettlementView> {
    s.map_values(|p: (Seq<char>, SettlementView)| p.1)
}

/// The claims of `s` in iteration order.
pub open spec fn claim_values(s: Seq<(Seq<char>, ClaimView)>) -> Seq<ClaimView> {
    s.map_values(|p: (Seq<char>, ClaimView)| p.1)
}

/// Claims on the settlement with key `key`.
pub open spec fn claim_on(key: Seq<char>) -> spec_fn(ClaimView) -> bool {
    |c: ClaimView| c.settlement_key == key
}

/// Settlements passing the filters.
pub open spec fn listed_under(
    owner: Option<Seq<char>>,
    service_id: Option<Seq<char>>,
    status: Option<Seq<char>>,
) -> spec_fn(SettlementView) -> bool {
    |st: SettlementView| settlement_listed(st, owner, service_id, status)
}

impl State {
    /// The settlements passing the filters, in iteration order.
    pub fn settlements_matching(
        &self,
        owner: Option<&str>,
        service_id: Option<&str>,
        status: Option<&str>,
    ) -> (r: Vec<&Settlement>)
        requires
            self.wf(),
        ensures
            r@.map_values(|x: &Settlement| x@) == settlement_values(self.settlements.pairs()).filter(
                listed_under(opt_view(owner), opt_view(service_id), opt_view(status)),
            ),
    {
        let ghost pred = listed_under(opt_view(owner), opt_view(service_id), opt_view(status));
        let ghost all = settlement_values(self.settlements.pairs());
        let owner_s: Option<String> = match owner {
            Some(o) => Some(owned(o)),
            None => None,
        };
        let service_s: Option<String> = match service_id {
            Some(sv) => Some(owned(sv)),
            None => None,
        };
        let query: Option<String> = match status {
            Some(q) => Some(to_lowercase(q)),
            None => None,
        };
        let mut r: Vec<&Settlement> = Vec::new();
        let n = self.settlements.len();
        let mut i: usize = 0;
        while i < n
            invariant
                self.wf(),
                n == self.settlements.pairs().len(),
                i <= n,
                all == settlement_values(self.settlements.pairs()),
                pred == listed_under(opt_view(owner), opt_view(service_id), opt_view(status)),
                query matches Some(q) ==> status matches Some(s) && q@ == lowercase(s@),
                query is None ==> status is None,
                owner_s matches Some(o) ==> owner matches Some(x) && o@ == x@,
                owner_s is None ==> owner is None,
                service_s matches Some(o) ==> service_id matches Some(x) && o@ == x@,
                service_s is None ==> service_id is None,
                r@.map_values(|x: &Settlement| x@) == all.take(i as int).filter(pred),
            decreases n - i,
        {
            let st = self.settlements.value_at(i);
            proof {
                reveal_with_fuel(Seq::<_>::filter, 1);
                assert(all.take(i + 1).drop_last() =~= all.take(i as int));
                assert(all.take(i + 1).last() == st@);
            }
            let owner_ok = match &owner_s {
                Some(o) => st.id.owner == *o,
                None => true,
            };
            let service_ok = match &service_s {
                Some(sv) => st.id.service_id == *sv,
                None => true,
            };
            let status_ok = match &query {
                Some(q) => contains_text(status_label_text(st.status), q.as_str()),
                None => true,
            };
            let keep = owner_ok && service_ok && status_ok;
            proof {
                assert(keep == pred(st@));
                if !keep {
                    assert(all.take(i + 1).filter(pred) =~= all.take(i as int).filter(pred));
                } else {
                    assert(all.take(i + 1).filter(pred) =~= all.take(i as int).filter(pred).push(st@));
                }
            }
            if keep {
                r.push(st);
                proof {
                    assert(r@.map_values(|x: &Settlement| x@) =~= all.take(i as int).filter(pred).push(st@));
                }
            }
            i = i + 1;
        }
        proof {
            assert(all.take(n as int) =~= all);
        }
        r
    }

    /// The claims on the settlement with key `key`, in iteration order.
    pub fn claims_for_settlement(&self, key: &str) -> (r: Vec<&Claim>)
        requires
            self.wf(),
        ensures
            r@.map_values(|c: &Claim| c@) == claim_values(self.claims.pairs()).filter(claim_on(key@)),
    {
        let ghost pred = claim_on(key@);
        let ghost all = claim_values(self.claims.pairs());
        let key_s = owned(key);
        let mut r: Vec<&Claim> = Vec::new();
        let n = self.claims.len();
        let mut i: usize = 0;
        while i < n
            invariant
                self.wf(),
                n == self.claims.pairs().len(),
                i <= n,
                all == claim_values(self.claims.pairs()),
                pred == claim_on(key@),
                key_s@ == key@,
                r@.map_values(|c: &Claim| c@) == all.take(i as int).filter(pred),
            decreases n - i,
        {
            let c = self.claims.value_at(i);
            proof {
                reveal_with_fuel(Seq::<_>::filter, 1);
                assert(all.take(i + 1).drop_last() =~= all.take(i as int));
                assert(all.take(i + 1).last() == c@);
            }
            let keep = c.id.settlement_key == key_s;
            proof {
                if !keep {
                    assert(all.take(i + 1).filter(pred) =~= all.take(i as int).filter(pred));
                } else {
                    assert(all.take(i + 1).filter(pred) =~= all.take(i as int).filter(pred).push(c@));
                }
            }
            if keep {
                r.push(c);
                proof {
                    assert(r@.map_values(|c: &Claim| c@) =~= all.take(i as int).filter(pred).push(c@));
                }
            }
            i = i + 1;
        }
        proof {
            assert(all.take(n as int) =~= all);
        }
        r
    }
}

} // verus!
