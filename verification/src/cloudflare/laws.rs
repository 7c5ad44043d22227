//! What holds of a routing table however it is edited.

use vstd::prelude::*;

use crate::cloudflare::{
    catch_all_rule, catch_all_service, distinct_services, first_place_of, is_catch_all,
    lemma_first_place_is_one, place_of, serves, stays, table_in_order, upserted, without_service,
    RuleView,
};

verus! {

/// A service that some rule sends to has a first rule that sends to it.
pub proof fn lemma_some_place_is_first(rules: Seq<RuleView>, service: Seq<char>, at: int)
    requires
        0 <= at < rules.len(),
        rules[at].service == service,
    ensures
        serves(rules, service),
    decreases at,
{
    if exists|j: int| 0 <= j < at && (#[trigger] rules[j]).service == service {
        let j = choose|j: int| 0 <= j < at && (#[trigger] rules[j]).service == service;
        lemma_some_place_is_first(rules, service, j);
    } else {
        assert(first_place_of(rules, service, at));
    }
}

/// A table that does not serve a service holds no rule for it.
pub proof fn lemma_unserved_everywhere(rules: Seq<RuleView>, service: Seq<char>)
    requires
        !serves(rules, service),
    ensures
        forall|j: int| 0 <= j < rules.len() ==> (#[trigger] rules[j]).service != service,
{
    assert forall|j: int| 0 <= j < rules.len() implies (#[trigger] rules[j]).service
        != service by {
        if rules[j].service == service {
            lemma_some_place_is_first(rules, service, j);
        }
    }
}

/// Putting a route into a table in order leaves it in order: the catch-all
/// stays last, and no service is named twice.
pub proof fn lemma_upsert_keeps_order(rules: Seq<RuleView>, rule: RuleView)
    ensures
        table_in_order(rules) && rule.service != catch_all_service() ==> table_in_order(
            upserted(rules, rule),
        ),
{
    if table_in_order(rules) && rule.service != catch_all_service() {
        let after = upserted(rules, rule);
        if serves(rules, rule.service) {
            let at = place_of(rules, rule.service);
            assert(first_place_of(rules, rule.service, at));
            assert(rules.last().service == catch_all_service());
            assert(at != rules.len() - 1);
            assert(after.last() == rules.last());
            assert forall|i: int, j: int| 0 <= i < j < after.len() implies (#[trigger] after[i]).service
                != (#[trigger] after[j]).service by {
                assert(after[i].service == rules[i].service);
                assert(after[j].service == rules[j].service);
            }
        } else if rules.len() == 0 {
            assert(after.last() == catch_all_rule());
        } else {
            lemma_unserved_everywhere(rules, rule.service);
            let n = rules.len() as int;
            assert(after.last() == rules.last());
            assert forall|i: int, j: int| 0 <= i < j < after.len() implies (#[trigger] after[i]).service
                != (#[trigger] after[j]).service by {
                if j == n {
                    if i == n - 1 {
                    } else {
                        assert(after[i] == rules[i]);
                    }
                } else if j == n - 1 {
                    assert(after[i] == rules[i]);
                } else {
                    assert(after[i] == rules[i]);
                    assert(after[j] == rules[j]);
                }
            }
        }
    }
}

/// Putting the same rule in twice gives what putting it in once gives.
pub proof fn lemma_upsert_idempotent(rules: Seq<RuleView>, rule: RuleView)
    ensures
        upserted(upserted(rules, rule), rule) == upserted(rules, rule),
{
    let once = upserted(rules, rule);
    if serves(rules, rule.service) {
        let at = place_of(rules, rule.service);
        assert(first_place_of(rules, rule.service, at));
        assert(first_place_of(once, rule.service, at)) by {
            assert forall|j: int| 0 <= j < at implies (#[trigger] once[j]).service
                != rule.service by {
                assert(once[j] == rules[j]);
            }
        }
        lemma_first_place_is_one(once, rule.service, at);
        assert(once.update(at, rule) =~= once);
    } else if rules.len() == 0 {
        assert(first_place_of(once, rule.service, 0));
        lemma_first_place_is_one(once, rule.service, 0);
        assert(once.update(0, rule) =~= once);
    } else {
        lemma_unserved_everywhere(rules, rule.service);
        let at = rules.len() - 1;
        assert(first_place_of(once, rule.service, at)) by {
            assert forall|j: int| 0 <= j < at implies (#[trigger] once[j]).service
                != rule.service by {
                assert(once[j] == rules[j]);
            }
        }
        lemma_first_place_is_one(once, rule.service, at);
        assert(once.update(at, rule) =~= once);
    }
}

/// Two routes for services that a table does not know yet come to stand in
/// the order in which they were put in, just before the catch-all.
pub proof fn lemma_new_routes_keep_their_order(rules: Seq<RuleView>, first: RuleView, second: RuleView)
    requires
        table_in_order(rules),
        rules.len() > 0,
        !serves(rules, first.service),
        !serves(rules, second.service),
        first.service != second.service,
    ensures
        upserted(upserted(rules, first), second) == rules.drop_last().push(first).push(second).push(
            rules.last(),
        ),
{
    lemma_unserved_everywhere(rules, first.service);
    lemma_unserved_everywhere(rules, second.service);
    let once = upserted(rules, first);
    assert(once =~= rules.drop_last().push(first).push(rules.last()));
    assert forall|j: int| 0 <= j < once.len() implies (#[trigger] once[j]).service
        != second.service by {
        if j < rules.len() - 1 {
            assert(once[j] == rules[j]);
        } else if j == rules.len() {
            assert(once[j] == rules[rules.len() - 1]);
        }
    }
    crate::cloudflare::lemma_not_served(once, second.service);
    assert(upserted(once, second) =~= rules.drop_last().push(first).push(second).push(rules.last()));
}

/// Dropping rules from a table names no service twice that was named once.
pub proof fn lemma_filter_keeps_distinct(rules: Seq<RuleView>, keep: spec_fn(RuleView) -> bool)
    requires
        distinct_services(rules),
    ensures
        distinct_services(rules.filter(keep)),
    decreases rules.len(),
{
    reveal(Seq::filter);
    if rules.len() > 0 {
        let front = rules.drop_last();
        assert forall|i: int, j: int| 0 <= i < j < front.len() implies (#[trigger] front[i]).service
            != (#[trigger] front[j]).service by {
            assert(front[i] == rules[i]);
            assert(front[j] == rules[j]);
        }
        lemma_filter_keeps_distinct(front, keep);
        let kept = front.filter(keep);
        let after = rules.filter(keep);
        if keep(rules.last()) {
            assert(after == kept.push(rules.last()));
            assert forall|i: int, j: int| 0 <= i < j < after.len() implies (#[trigger] after[i]).service
                != (#[trigger] after[j]).service by {
                if j == kept.len() {
                    assert(kept.contains(kept[i]));
                    front.lemma_filter_contains_rev(keep, kept[i]);
                    let m = choose|m: int| 0 <= m < front.len() && front[m] == kept[i];
                    assert(rules[m] == front[m]);
                    assert(rules[m].service != rules[rules.len() - 1].service);
                } else {
                    assert(after[i] == kept[i]);
                    assert(after[j] == kept[j]);
                }
            }
        }
    }
}

/// Dropping the rules of a service from a table in order leaves it in
/// order: the catch-all stays, and stays last.
pub proof fn lemma_removal_keeps_order(rules: Seq<RuleView>, name: Seq<char>)
    ensures
        table_in_order(rules) ==> table_in_order(without_service(rules, name)),
        rules.len() > 0 && is_catch_all(rules.last()) ==> without_service(rules, name).len() > 0,
{
    let keep = |rule: RuleView| stays(rule, name);
    reveal(Seq::filter);
    if rules.len() > 0 && is_catch_all(rules.last()) {
        assert(keep(rules.last()));
        assert(rules.filter(keep) == rules.drop_last().filter(keep).push(rules.last()));
    }
    if table_in_order(rules) {
        if rules.len() > 0 {
            lemma_filter_keeps_distinct(rules, keep);
        } else {
            assert(rules.filter(keep).len() == 0);
        }
    }
}

/// One edit of a routing table.
pub enum Edit {
    /// Put a rule in.
    Upsert(RuleView),
    /// Drop the rules whose service mentions a name.
    Remove(Seq<char>),
}

/// The table after one edit.
pub open spec fn edited(rules: Seq<RuleView>, edit: Edit) -> Seq<RuleView> {
    match edit {
        Edit::Upsert(rule) => upserted(rules, rule),
        Edit::Remove(name) => without_service(rules, name),
    }
}

/// The table after a run of edits, the first of them made first.
pub open spec fn edited_by_all(rules: Seq<RuleView>, edits: Seq<Edit>) -> Seq<RuleView>
    decreases edits.len(),
{
    if edits.len() == 0 {
        rules
    } else {
        edited(edited_by_all(rules, edits.drop_last()), edits.last())
    }
}

/// No rule that the edits put in sends to the catch-all's own service.
pub open spec fn routes_only(edits: Seq<Edit>) -> bool {
    forall|i: int|
        0 <= i < edits.len() ==> match #[trigger] edits[i] {
            Edit::Upsert(rule) => rule.service != catch_all_service(),
            Edit::Remove(_) => true,
        }
}

/// The catch-all occurs once in a table, as its last rule.
pub open spec fn closed_by_one_catch_all(rules: Seq<RuleView>) -> bool {
    &&& rules.len() > 0
    &&& is_catch_all(rules.last())
    &&& forall|i: int| 0 <= i < rules.len() - 1 ==> (#[trigger] rules[i]).service != catch_all_service()
}

/// A table in order that is not empty is closed by one catch-all.
pub proof fn lemma_order_closes(rules: Seq<RuleView>)
    requires
        table_in_order(rules),
        rules.len() > 0,
    ensures
        closed_by_one_catch_all(rules),
{
    assert forall|i: int| 0 <= i < rules.len() - 1 implies (#[trigger] rules[i]).service
        != catch_all_service() by {
        assert(rules[i].service != rules[rules.len() - 1].service);
    }
}

/// Whatever routes are put into a table in order and whatever services are
/// dropped from it, in whatever sequence: where the table is not empty
/// afterwards, its last rule is the catch-all, and no other rule sends to
/// the catch-all's service.
pub proof fn lemma_catch_all_stays_last(rules: Seq<RuleView>, edits: Seq<Edit>)
    requires
        table_in_order(rules),
        routes_only(edits),
    ensures
        table_in_order(edited_by_all(rules, edits)),
        edited_by_all(rules, edits).len() > 0 ==> closed_by_one_catch_all(
            edited_by_all(rules, edits),
        ),
    decreases edits.len(),
{
    if edits.len() > 0 {
        let front = edits.drop_last();
        assert forall|i: int| 0 <= i < front.len() implies match #[trigger] front[i] {
            Edit::Upsert(rule) => rule.service != catch_all_service(),
            Edit::Remove(_) => true,
        } by {
            assert(front[i] == edits[i]);
        }
        lemma_catch_all_stays_last(rules, front);
        let before = edited_by_all(rules, front);
        match edits.last() {
            Edit::Upsert(rule) => {
                assert(edits[edits.len() - 1] == edits.last());
                lemma_upsert_keeps_order(before, rule);
            },
            Edit::Remove(name) => {
                lemma_removal_keeps_order(before, name);
            },
        }
    }
    let after = edited_by_all(rules, edits);
    if after.len() > 0 {
        lemma_order_closes(after);
    }
}

} // verus!
