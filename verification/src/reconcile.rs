//! The order in which the proxies of a snapshot are shown.
//!
//! The daemon keeps a group named `GLOBAL` whose member list is the order it
//! prefers. The proxies that the list names come first, in the order of the
//! list; those that it does not name follow. The group itself is shown in
//! global mode only, and in direct mode a single stand-in is shown instead.

use vstd::prelude::*;
use vstd::string::StringExecFns;

use crate::model::{clone_names, Mode, Proxy, ProxyView};
use crate::snapshot::{
    entry, has_name, index_of, lemma_index_of_unique, names_distinct, ProxySnapshot,
};

verus! {

/// The name of the group whose member list gives the order.
pub const GLOBAL: &'static str = "GLOBAL";

/// The name of the stand-in that is shown in direct mode.
pub const DIRECT: &'static str = "DIRECT";

/// The kind of the stand-in that is shown in direct mode.
pub const DIRECT_TYPE: &'static str = "Direct";

/// The stand-in that is shown in direct mode.
pub open spec fn direct_proxy() -> ProxyView {
    ProxyView {
        name: DIRECT@,
        proxy_type: DIRECT_TYPE@,
        all: Seq::empty(),
        now: None,
        history: Seq::empty(),
    }
}

/// A member name that stands for a proxy to be shown: one of the snapshot
/// other than the ordering group.
pub open spec fn is_shown_member(raw: Seq<ProxyView>, name: Seq<char>) -> bool {
    name != GLOBAL@ && has_name(raw, name)
}

/// A proxy that the member list does not name, and that is not the ordering
/// group.
pub open spec fn is_orphan(members: Seq<Seq<char>>, proxy: ProxyView) -> bool {
    proxy.name != GLOBAL@ && !members.contains(proxy.name)
}

/// The members that stand for no proxy to be shown.
pub open spec fn missing_members(raw: Seq<ProxyView>, members: Seq<Seq<char>>) -> Seq<Seq<char>> {
    members.filter(|name: Seq<char>| !is_shown_member(raw, name))
}

/// The proxies that the member list names, in the order of the list.
pub open spec fn ordered_part(raw: Seq<ProxyView>, members: Seq<Seq<char>>) -> Seq<ProxyView> {
    members.filter(|name: Seq<char>| is_shown_member(raw, name)).map_values(
        |name: Seq<char>| entry(raw, name),
    )
}

/// The proxies that the member list does not name, in the order of the
/// snapshot.
pub open spec fn orphan_part(raw: Seq<ProxyView>, members: Seq<Seq<char>>) -> Seq<ProxyView> {
    raw.filter(|proxy: ProxyView| is_orphan(members, proxy))
}

/// The proxies to show for a snapshot in a mode.
pub open spec fn reconciled(raw: Seq<ProxyView>, mode: Mode) -> Seq<ProxyView> {
    if mode == Mode::Direct {
        seq![direct_proxy()]
    } else if !has_name(raw, GLOBAL@) {
        raw
    } else {
        let group = entry(raw, GLOBAL@);
        let body = ordered_part(raw, group.all) + orphan_part(raw, group.all);
        if mode == Mode::Global {
            seq![group] + body
        } else {
            body
        }
    }
}

/// Whether a list of names holds a name.
pub fn contains_name(names: &Vec<String>, name: &String) -> (r: bool)
    ensures
        r == names.deep_view().contains(name@),
{
    let mut i: usize = 0;
    while i < names.len()
        invariant
            i <= names.len(),
            forall|k: int| 0 <= k < i ==> names.deep_view()[k] != name@,
        decreases names.len() - i,
    {
        if names[i] == *name {
            assert(names.deep_view()[i as int] == name@);
            return true;
        }
        i += 1;
    }
    false
}

/// The proxies that a member list names, in the order of the list.
fn collect_ordered(raw: &ProxySnapshot, members: &Vec<String>, out: &mut Vec<Proxy>)
    requires
        raw.wf(),
    ensures
        final(out).deep_view() == old(out).deep_view() + ordered_part(raw@, members.deep_view()),
{
    let global = String::from_str(GLOBAL);
    let ghost start = out.deep_view();
    let ghost names = members.deep_view();
    let mut i: usize = 0;
    assert(names.take(0) =~= Seq::<Seq<char>>::empty());
    assert(ordered_part(raw@, names.take(0)) =~= Seq::<ProxyView>::empty()) by {
        reveal(Seq::filter);
    }
    assert(out.deep_view() =~= start + ordered_part(raw@, names.take(0)));
    while i < members.len()
        invariant
            i <= members.len(),
            raw.wf(),
            names == members.deep_view(),
            global@ == GLOBAL@,
            out.deep_view() == start + ordered_part(raw@, names.take(i as int)),
        decreases members.len() - i,
    {
        let name = &members[i];
        let ghost before = out.deep_view();
        proof {
            assert(names.take(i + 1) =~= names.take(i as int).push(names[i as int]));
            lemma_ordered_push(raw@, names.take(i as int), names[i as int]);
        }
        if *name != global {
            match raw.position(name) {
                Some(at) => {
                    proof {
                        lemma_index_of_unique(raw@, at as int);
                    }
                    out.push(raw.entry_at(at).clone());
                    assert(out.deep_view() =~= before.push(entry(raw@, name@)));
                },
                None => {},
            }
        }
        i += 1;
    }
    assert(names.take(i as int) =~= names);
}

/// The proxies that a member list does not name, in the order of the snapshot.
fn collect_orphans(raw: &ProxySnapshot, members: &Vec<String>, out: &mut Vec<Proxy>)
    ensures
        final(out).deep_view() == old(out).deep_view() + orphan_part(raw@, members.deep_view()),
{
    let global = String::from_str(GLOBAL);
    let ghost start = out.deep_view();
    let ghost names = members.deep_view();
    let mut i: usize = 0;
    assert(raw@.take(0) =~= Seq::<ProxyView>::empty());
    assert(orphan_part(raw@.take(0), names) =~= Seq::<ProxyView>::empty()) by {
        reveal(Seq::filter);
    }
    assert(out.deep_view() =~= start + orphan_part(raw@.take(0), names));
    while i < raw.len()
        invariant
            i <= raw@.len(),
            names == members.deep_view(),
            global@ == GLOBAL@,
            out.deep_view() == start + orphan_part(raw@.take(i as int), names),
        decreases raw@.len() - i,
    {
        let proxy = raw.entry_at(i);
        let ghost before = out.deep_view();
        proof {
            assert(raw@.take(i + 1) =~= raw@.take(i as int).push(raw@[i as int]));
            lemma_orphan_push(raw@.take(i as int), names, raw@[i as int]);
        }
        if proxy.name != global && !contains_name(members, &proxy.name) {
            out.push(proxy.clone());
            assert(out.deep_view() =~= before.push(raw@[i as int]));
        }
        i += 1;
    }
    assert(raw@.take(i as int) =~= raw@);
}

/// Orders the proxies of a snapshot for display in a mode.
pub fn reconcile(raw: &ProxySnapshot, mode: Mode) -> (out: Vec<Proxy>)
    requires
        raw.wf(),
    ensures
        out.deep_view() == reconciled(raw@, mode),
        out@.len() == reconciled(raw@, mode).len(),
{
    let mut out: Vec<Proxy> = Vec::new();
    assert(out.deep_view() =~= Seq::<ProxyView>::empty());
    if mode == Mode::Direct {
        out.push(
            Proxy {
                name: String::from_str(DIRECT),
                proxy_type: String::from_str(DIRECT_TYPE),
                all: Vec::new(),
                now: None,
                history: Vec::new(),
            },
        );
        assert(out.deep_view() =~= seq![direct_proxy()]) by {
            let shown = out[0].deep_view();
            assert(shown.all =~= Seq::<Seq<char>>::empty());
            assert(shown.history =~= Seq::empty());
        }
        return out;
    }
    let global = String::from_str(GLOBAL);
    match raw.position(&global) {
        Some(at) => {
            proof {
                lemma_index_of_unique(raw@, at as int);
            }
            let group = raw.entry_at(at);
            if mode == Mode::Global {
                out.push(group.clone());
                assert(out.deep_view() =~= seq![entry(raw@, GLOBAL@)]);
            }
            let members = clone_names(&group.all);
            collect_ordered(raw, &members, &mut out);
            collect_orphans(raw, &members, &mut out);
            assert(out.deep_view() =~= reconciled(raw@, mode));
            out
        },
        None => {
            let mut i: usize = 0;
            while i < raw.len()
                invariant
                    i <= raw@.len(),
                    out.deep_view() == raw@.take(i as int),
                decreases raw@.len() - i,
            {
                let ghost before = out.deep_view();
                out.push(raw.entry_at(i).clone());
                assert(out.deep_view() =~= before.push(raw@[i as int]));
                assert(raw@.take(i + 1) =~= raw@.take(i as int).push(raw@[i as int]));
                i += 1;
            }
            assert(raw@.take(i as int) =~= raw@);
            out
        },
    }
}

/// What one more member adds to the proxies that a member list names.
pub proof fn lemma_ordered_push(raw: Seq<ProxyView>, members: Seq<Seq<char>>, name: Seq<char>)
    ensures
        ordered_part(raw, members.push(name)) == if is_shown_member(raw, name) {
            ordered_part(raw, members).push(entry(raw, name))
        } else {
            ordered_part(raw, members)
        },
{
    let shown = |name: Seq<char>| is_shown_member(raw, name);
    reveal(Seq::filter);
    assert(members.push(name).drop_last() =~= members);
    assert(members.push(name).last() == name);
    let kept = members.filter(shown);
    let pick = |name: Seq<char>| entry(raw, name);
    if is_shown_member(raw, name) {
        assert(members.push(name).filter(shown) == kept.push(name));
        assert(kept.push(name).map_values(pick) =~= kept.map_values(pick).push(entry(raw, name)));
    } else {
        assert(members.push(name).filter(shown) == kept);
    }
}

/// What one more entry of the snapshot adds to the proxies that a member list
/// does not name.
pub proof fn lemma_orphan_push(raw: Seq<ProxyView>, members: Seq<Seq<char>>, proxy: ProxyView)
    ensures
        orphan_part(raw.push(proxy), members) == if is_orphan(members, proxy) {
            orphan_part(raw, members).push(proxy)
        } else {
            orphan_part(raw, members)
        },
{
    reveal(Seq::filter);
    assert(raw.push(proxy).drop_last() =~= raw);
    assert(raw.push(proxy).last() == proxy);
}

/// A filter that every element passes keeps the whole sequence.
proof fn lemma_filter_keeps_all<A>(s: Seq<A>, pred: spec_fn(A) -> bool)
    requires
        forall|i: int| 0 <= i < s.len() ==> pred(#[trigger] s[i]),
    ensures
        s.filter(pred) == s,
    decreases s.len(),
{
    reveal(Seq::filter);
    if s.len() > 0 {
        lemma_filter_keeps_all(s.drop_last(), pred);
        assert(s.drop_last().push(s.last()) =~= s);
    }
}

/// What a filter keeps passes the filter and comes from the sequence.
proof fn lemma_filter_kept<A>(s: Seq<A>, pred: spec_fn(A) -> bool, i: int)
    requires
        0 <= i < s.filter(pred).len(),
    ensures
        pred(s.filter(pred)[i]),
        s.contains(s.filter(pred)[i]),
    decreases s.len(),
{
    reveal(Seq::filter);
    if s.len() > 0 {
        let front = s.drop_last().filter(pred);
        if i < front.len() {
            lemma_filter_kept(s.drop_last(), pred, i);
            let j = choose|j: int| 0 <= j < s.drop_last().len() && s.drop_last()[j] == front[i];
            assert(s[j] == front[i]);
        } else {
            assert(s[s.len() - 1] == s.last());
        }
    }
}

/// A filter and its opposite share out the elements of a sequence.
proof fn lemma_filter_split_len<A>(s: Seq<A>, pred: spec_fn(A) -> bool, other: spec_fn(A) -> bool)
    requires
        forall|a: A| #[trigger] other(a) == !pred(a),
    ensures
        s.filter(pred).len() + s.filter(other).len() == s.len(),
    decreases s.len(),
{
    reveal(Seq::filter);
    if s.len() > 0 {
        lemma_filter_split_len(s.drop_last(), pred, other);
    }
}

/// In direct mode the stand-in alone is shown, whatever the snapshot holds.
pub proof fn lemma_direct_mode(raw: Seq<ProxyView>)
    ensures
        reconciled(raw, Mode::Direct) == seq![direct_proxy()],
        reconciled(raw, Mode::Direct).len() == 1,
{
}

/// Global mode shows the ordering group first and then what rule mode
/// shows.
pub proof fn lemma_global_mode_prepends(raw: Seq<ProxyView>)
    requires
        has_name(raw, GLOBAL@),
    ensures
        reconciled(raw, Mode::Global) == seq![entry(raw, GLOBAL@)] + reconciled(raw, Mode::Rule),
{
}

/// Without the ordering group the snapshot is shown as it stands.
pub proof fn lemma_no_group_passes_through(raw: Seq<ProxyView>, mode: Mode)
    requires
        !has_name(raw, GLOBAL@),
        mode != Mode::Direct,
    ensures
        reconciled(raw, mode) == raw,
{
}

/// Where every member names a proxy of the snapshot, rule mode shows those
/// proxies first, one for each member and in the order of the member list,
/// and after them the proxies that the list does not name.
pub proof fn lemma_members_lead(raw: Seq<ProxyView>)
    requires
        names_distinct(raw),
        has_name(raw, GLOBAL@),
        forall|i: int|
            0 <= i < entry(raw, GLOBAL@).all.len() ==> is_shown_member(
                raw,
                #[trigger] entry(raw, GLOBAL@).all[i],
            ),
    ensures
        ({
            let members = entry(raw, GLOBAL@).all;
            let shown = reconciled(raw, Mode::Rule);
            &&& shown.len() == members.len() + orphan_part(raw, members).len()
            &&& forall|i: int|
                0 <= i < members.len() ==> (#[trigger] shown[i]).name == members[i] && shown[i]
                    == entry(raw, members[i])
            &&& shown.subrange(members.len() as int, shown.len() as int) == orphan_part(
                raw,
                members,
            )
        }),
{
    let members = entry(raw, GLOBAL@).all;
    let shown = reconciled(raw, Mode::Rule);
    lemma_filter_keeps_all(members, |name: Seq<char>| is_shown_member(raw, name));
    assert(ordered_part(raw, members) =~= members.map_values(|name: Seq<char>| entry(raw, name)));
    assert forall|i: int| 0 <= i < members.len() implies (#[trigger] shown[i]).name == members[i]
        && shown[i] == entry(raw, members[i]) by {
        assert(is_shown_member(raw, members[i]));
        let at = choose|k: int| 0 <= k < raw.len() && #[trigger] raw[k].name == members[i];
        assert(raw[at].name == members[i]);
    }
    assert(shown.subrange(members.len() as int, shown.len() as int) =~= orphan_part(raw, members));
}

/// Members that name no proxy of the snapshot are passed over: rule mode
/// shows one proxy for each member but the missing ones, and one for each
/// proxy that the member list does not name. Global mode shows one more.
pub proof fn lemma_reconciled_len(raw: Seq<ProxyView>, mode: Mode)
    requires
        has_name(raw, GLOBAL@),
        mode != Mode::Direct,
    ensures
        ({
            let members = entry(raw, GLOBAL@).all;
            let group: int = if mode == Mode::Global {
                1
            } else {
                0
            };
            reconciled(raw, mode).len() == group + members.len() - missing_members(
                raw,
                members,
            ).len() + orphan_part(raw, members).len()
        }),
{
    let members = entry(raw, GLOBAL@).all;
    lemma_filter_split_len(
        members,
        |name: Seq<char>| is_shown_member(raw, name),
        |name: Seq<char>| !is_shown_member(raw, name),
    );
}

/// Every proxy that is shown outside direct mode is a proxy of the snapshot.
pub proof fn lemma_shown_from_snapshot(raw: Seq<ProxyView>, mode: Mode, k: int)
    requires
        names_distinct(raw),
        mode != Mode::Direct,
        0 <= k < reconciled(raw, mode).len(),
    ensures
        raw.contains(reconciled(raw, mode)[k]),
{
    let shown = reconciled(raw, mode);
    if has_name(raw, GLOBAL@) {
        let members = entry(raw, GLOBAL@).all;
        let ordered = ordered_part(raw, members);
        let orphans = orphan_part(raw, members);
        let lead: int = if mode == Mode::Global {
            1
        } else {
            0
        };
        if k < lead {
            assert(shown[k] == raw[index_of(raw, GLOBAL@)]);
        } else if k < lead + ordered.len() {
            let kept = members.filter(|name: Seq<char>| is_shown_member(raw, name));
            let name = kept[k - lead];
            lemma_filter_kept(members, |name: Seq<char>| is_shown_member(raw, name), k - lead);
            assert(is_shown_member(raw, name));
            let j = choose|j: int| 0 <= j < raw.len() && #[trigger] raw[j].name == name;
            assert(shown[k] == raw[j]);
        } else {
            lemma_filter_kept(
                raw,
                |proxy: ProxyView| is_orphan(members, proxy),
                k - lead - ordered.len(),
            );
            assert(shown[k] == orphans[k - lead - ordered.len()]);
        }
    } else {
        assert(shown[k] == raw[k]);
    }
}

/// No proxy is lost: outside direct mode every proxy of the snapshot is
/// shown, but for the ordering group, which is shown in global mode only.
pub proof fn lemma_every_proxy_shown(raw: Seq<ProxyView>, mode: Mode, j: int)
    requires
        names_distinct(raw),
        mode != Mode::Direct,
        0 <= j < raw.len(),
        raw[j].name != GLOBAL@ || mode == Mode::Global,
    ensures
        reconciled(raw, mode).contains(raw[j]),
{
    let shown = reconciled(raw, mode);
    let proxy = raw[j];
    lemma_index_of_unique(raw, j);
    if has_name(raw, GLOBAL@) {
        let group = entry(raw, GLOBAL@);
        let members = group.all;
        let ordered = ordered_part(raw, members);
        let orphans = orphan_part(raw, members);
        let lead: int = if mode == Mode::Global {
            1
        } else {
            0
        };
        if proxy.name == GLOBAL@ {
            assert(shown[0] == proxy);
        } else if members.contains(proxy.name) {
            let m = choose|m: int| 0 <= m < members.len() && members[m] == proxy.name;
            let keep = |name: Seq<char>| is_shown_member(raw, name);
            assert(keep(members[m]));
            members.lemma_filter_contains(keep, m);
            let kept = members.filter(keep);
            let k = choose|k: int| 0 <= k < kept.len() && kept[k] == proxy.name;
            assert(ordered[k] == entry(raw, proxy.name));
            assert(shown[lead + k] == proxy);
        } else {
            let keep = |proxy: ProxyView| is_orphan(members, proxy);
            assert(keep(raw[j]));
            raw.lemma_filter_contains(keep, j);
            let k = choose|k: int| 0 <= k < orphans.len() && orphans[k] == proxy;
            assert(shown[lead + ordered.len() + k] == proxy);
        }
    } else {
        assert(shown[j] == proxy);
    }
}

/// Rule mode never shows the ordering group.
pub proof fn lemma_rule_mode_hides_group(raw: Seq<ProxyView>, k: int)
    requires
        names_distinct(raw),
        has_name(raw, GLOBAL@),
        0 <= k < reconciled(raw, Mode::Rule).len(),
    ensures
        reconciled(raw, Mode::Rule)[k].name != GLOBAL@,
{
    let shown = reconciled(raw, Mode::Rule);
    let members = entry(raw, GLOBAL@).all;
    let ordered = ordered_part(raw, members);
    let orphans = orphan_part(raw, members);
    if k < ordered.len() {
        let kept = members.filter(|name: Seq<char>| is_shown_member(raw, name));
        let name = kept[k];
        lemma_filter_kept(members, |name: Seq<char>| is_shown_member(raw, name), k);
        assert(is_shown_member(raw, name));
        let j = choose|j: int| 0 <= j < raw.len() && #[trigger] raw[j].name == name;
        assert(shown[k] == raw[j]);
    } else {
        lemma_filter_kept(raw, |proxy: ProxyView| is_orphan(members, proxy), k - ordered.len());
        assert(shown[k] == orphans[k - ordered.len()]);
        assert(is_orphan(members, orphans[k - ordered.len()]));
    }
}

/// The order is a function of the snapshot and the mode: two runs on equal
/// snapshots in one mode show the same proxies in the same order.
pub proof fn lemma_reconcile_repeatable(
    first: &ProxySnapshot,
    second: &ProxySnapshot,
    mode: Mode,
    shown_first: &Vec<Proxy>,
    shown_second: &Vec<Proxy>,
)
    requires
        first@ == second@,
        shown_first.deep_view() == reconciled(first@, mode),
        shown_second.deep_view() == reconciled(second@, mode),
    ensures
        shown_first.deep_view() == shown_second.deep_view(),
{
}

} // verus!
