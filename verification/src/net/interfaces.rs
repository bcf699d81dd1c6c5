//! Names of Wi-Fi interfaces, read without privileges from what the kernel and
//! the daemon show in the file system.

use crate::text::{
    before, before_first, ends_with, is_space, law_cut_stops_at_the_first,
    law_last_line_needs_no_end, law_line_feed_ends_a_line, law_lines_of_two_texts,
    law_trim_takes_off_the_ends, lemma_position, lemma_trimmed, lemma_views_push, lines, lines_of,
    same_text, starts_with, strip_return, trim, trimmed, views,
};
use vstd::prelude::*;
use vstd::string::*;

verus! {

/// The adapter that a row of `/proc/net/wireless` is about: what stands before
/// the first colon, without the white space around it.
pub open spec fn row_adapter(row: Seq<char>) -> Option<Seq<char>> {
    let name = trimmed(before_first(row, ':'));
    if name.len() == 0 {
        None
    } else {
        Some(name)
    }
}

/// The rows of `/proc/net/wireless`: its lines after the two of the heading.
pub open spec fn table_rows(content: Seq<char>) -> Seq<Seq<char>> {
    let all = lines_of(content);
    if all.len() <= 2 {
        Seq::empty()
    } else {
        all.skip(2)
    }
}

/// The adapters that `/proc/net/wireless` lists.
pub open spec fn table_adapters(content: Seq<char>) -> Seq<Seq<char>> {
    table_rows(content).filter_map(|row: Seq<char>| row_adapter(row))
}

/// The names under `/sys/class/net` that are wireless adapters.
pub open spec fn class_adapters(entries: Seq<Seq<char>>) -> Seq<Seq<char>> {
    entries.filter(|name: Seq<char>| "wl"@.is_prefix_of(name))
}

/// Whether an entry of `/run/wpa_supplicant` is the control socket of one
/// interface: neither the global socket nor a pid file.
pub open spec fn is_control_socket(name: Seq<char>) -> bool {
    name != "global"@ && !".pid"@.is_suffix_of(name)
}

/// The interfaces that have a control socket in `/run/wpa_supplicant`.
pub open spec fn socket_interfaces(entries: Seq<Seq<char>>) -> Seq<Seq<char>> {
    entries.filter(|name: Seq<char>| is_control_socket(name))
}

/// Filtering one more element of a sequence.
proof fn lemma_filter_take<A>(s: Seq<A>, i: int, pred: spec_fn(A) -> bool)
    requires
        0 <= i < s.len(),
    ensures
        s.take(i + 1).filter(pred) == if pred(s[i]) {
            s.take(i).filter(pred).push(s[i])
        } else {
            s.take(i).filter(pred)
        },
{
    reveal(Seq::filter);
    assert(s.take(i + 1).drop_last() =~= s.take(i));
}

/// Lists the Wi-Fi adapters in the content of `/proc/net/wireless`.
pub fn wifi_interfaces_from_proc(content: &str) -> (r: Vec<String>)
    ensures
        views(r@) == table_adapters(content@),
{
    let all: Vec<String> = lines(content);
    let mut r: Vec<String> = Vec::new();
    let ghost rows = table_rows(content@);
    let ghost pick = |row: Seq<char>| row_adapter(row);
    let mut i: usize = 2;
    proof {
        assert(views(r@) =~= rows.take(0).filter_map(pick));
    }
    while i < all.len()
        invariant
            views(all@) == lines_of(content@),
            rows == table_rows(content@),
            pick == (|row: Seq<char>| row_adapter(row)),
            2 <= i,
            i == 2 || i <= all.len(),
            views(r@) == rows.take(i - 2).filter_map(pick),
        decreases all.len() - i,
    {
        let name: &str = trim(before(all[i].as_str(), ':'));
        proof {
            assert(rows[i - 2] == all@[i as int]@) by {
                assert(views(all@)[i as int] == all@[i as int]@);
            }
            assert(rows.take(i - 1).drop_last() =~= rows.take(i - 2));
            assert(rows.take(i - 1).last() == rows[i - 2]);
        }
        if !name.is_empty() {
            let name: String = name.to_owned();
            proof {
                lemma_views_push(r@, name);
                assert(views(r@).push(name@) =~= views(r@) + seq![name@]);
            }
            r.push(name);
        }
        i += 1;
    }
    proof {
        assert(rows.take(i - 2) =~= rows);
    }
    r
}

/// Lists the wireless adapters among the entries of `/sys/class/net`: those
/// whose name begins with `wl`.
pub fn wifi_interfaces_from_sysfs(entries: &Vec<String>) -> (r: Vec<String>)
    ensures
        views(r@) == class_adapters(views(entries@)),
{
    let mut r: Vec<String> = Vec::new();
    let ghost names = views(entries@);
    let ghost keep = |name: Seq<char>| "wl"@.is_prefix_of(name);
    proof {
        reveal(Seq::filter);
        assert(views(r@) =~= names.take(0).filter(keep));
    }
    let mut i: usize = 0;
    while i < entries.len()
        invariant
            names == views(entries@),
            keep == (|name: Seq<char>| "wl"@.is_prefix_of(name)),
            i <= entries.len(),
            views(r@) == names.take(i as int).filter(keep),
        decreases entries.len() - i,
    {
        proof {
            lemma_filter_take(names, i as int, keep);
        }
        if starts_with(entries[i].as_str(), "wl") {
            let name: String = entries[i].clone();
            proof {
                lemma_views_push(r@, name);
            }
            r.push(name);
        }
        i += 1;
    }
    proof {
        assert(names.take(names.len() as int) =~= names);
    }
    r
}

/// Lists the interfaces that `wpa_supplicant` knows, from the entries of
/// `/run/wpa_supplicant`: every entry but the global socket and the pid files.
pub fn wpa_socket_interfaces(entries: &Vec<String>) -> (r: Vec<String>)
    ensures
        views(r@) == socket_interfaces(views(entries@)),
{
    let mut r: Vec<String> = Vec::new();
    let ghost names = views(entries@);
    let ghost keep = |name: Seq<char>| is_control_socket(name);
    proof {
        reveal(Seq::filter);
        assert(views(r@) =~= names.take(0).filter(keep));
    }
    let mut i: usize = 0;
    while i < entries.len()
        invariant
            names == views(entries@),
            keep == (|name: Seq<char>| is_control_socket(name)),
            i <= entries.len(),
            views(r@) == names.take(i as int).filter(keep),
        decreases entries.len() - i,
    {
        proof {
            lemma_filter_take(names, i as int, keep);
        }
        if !same_text(entries[i].as_str(), "global") && !ends_with(entries[i].as_str(), ".pid") {
            let name: String = entries[i].clone();
            proof {
                lemma_views_push(r@, name);
            }
            r.push(name);
        }
        i += 1;
    }
    proof {
        assert(names.take(names.len() as int) =~= names);
    }
    r
}

/// Every adapter read from `/proc/net/wireless` has a name without colons,
/// that is not empty and has no white space around it.
pub proof fn law_table_adapters_are_names(content: Seq<char>, i: int)
    requires
        0 <= i < table_adapters(content).len(),
    ensures
        table_adapters(content)[i].len() > 0,
        !table_adapters(content)[i].contains(':'),
        !is_space(table_adapters(content)[i].first()),
        !is_space(table_adapters(content)[i].last()),
{
    lemma_picked_rows(table_rows(content), i);
}

proof fn lemma_picked_rows(rows: Seq<Seq<char>>, i: int)
    requires
        0 <= i < rows.filter_map(|row: Seq<char>| row_adapter(row)).len(),
    ensures
        ({
            let name = rows.filter_map(|row: Seq<char>| row_adapter(row))[i];
            &&& name.len() > 0
            &&& !name.contains(':')
            &&& !is_space(name.first())
            &&& !is_space(name.last())
        }),
    decreases rows.len(),
{
    let pick = |row: Seq<char>| row_adapter(row);
    let rest = rows.drop_last();
    if i < rest.filter_map(pick).len() {
        lemma_picked_rows(rest, i);
    } else {
        let cut = before_first(rows.last(), ':');
        lemma_trimmed(cut);
        lemma_position(rows.last(), ':');
        assert(!cut.contains(':'));
    }
}

/// No interface with a control socket is named `global`, and none has the
/// extension of a pid file.
pub proof fn law_socket_interfaces_are_control_sockets(entries: Seq<Seq<char>>, i: int)
    requires
        0 <= i < socket_interfaces(entries).len(),
    ensures
        socket_interfaces(entries)[i] != "global"@,
        !".pid"@.is_suffix_of(socket_interfaces(entries)[i]),
        entries.contains(socket_interfaces(entries)[i]),
{
    let keep = |name: Seq<char>| is_control_socket(name);
    entries.lemma_filter_pred(keep, i);
    let name = entries.filter(keep)[i];
    entries.lemma_filter_contains_rev(keep, name);
}

/// How many of the first `count` rows have a name before their first colon that
/// is more than white space.
pub open spec fn named_rows(rows: Seq<Seq<char>>, count: int) -> nat
    decreases count,
{
    if count <= 0 {
        0
    } else {
        named_rows(rows, count - 1) + if trimmed(before_first(rows[count - 1], ':')).len() > 0 {
            1nat
        } else {
            0nat
        }
    }
}

/// No adapter is left out: of the lines after the first two, each with a name
/// before its first colon gives that very name, in the order of the lines; and
/// nothing else is listed.
pub proof fn law_every_adapter_is_listed(content: &str, adapters: Vec<String>)
    requires
        call_ensures(wifi_interfaces_from_proc, (content,), adapters),
    ensures
        ({
            let all = lines_of(content@);
            let rows = all.skip(2);
            &&& all.len() <= 2 ==> adapters@.len() == 0
            &&& all.len() > 2 ==> adapters@.len() == named_rows(rows, rows.len() as int)
            &&& all.len() > 2 ==> forall|k: int|
                0 <= k < rows.len() && trimmed(before_first(#[trigger] rows[k], ':')).len() > 0 ==> {
                    &&& named_rows(rows, k) < adapters@.len()
                    &&& adapters@[named_rows(rows, k) as int]@ == trimmed(before_first(rows[k], ':'))
                }
        }),
{
    assert(adapters@.len() == views(adapters@).len());
    let all = lines_of(content@);
    if all.len() > 2 {
        let rows = all.skip(2);
        lemma_named_rows(rows, rows.len() as int);
        assert(rows.take(rows.len() as int) =~= rows);
        assert forall|k: int|
            0 <= k < rows.len() && trimmed(before_first(#[trigger] rows[k], ':')).len() > 0 implies {
            &&& named_rows(rows, k) < adapters@.len()
            &&& adapters@[named_rows(rows, k) as int]@ == trimmed(before_first(rows[k], ':'))
        } by {
            assert(views(adapters@)[named_rows(rows, k) as int] == adapters@[named_rows(
                rows,
                k,
            ) as int]@);
        }
    }
}

proof fn lemma_named_rows(rows: Seq<Seq<char>>, count: int)
    requires
        0 <= count <= rows.len(),
    ensures
        ({
            let picked = rows.take(count).filter_map(|row: Seq<char>| row_adapter(row));
            &&& picked.len() == named_rows(rows, count)
            &&& forall|k: int|
                0 <= k < count && trimmed(before_first(#[trigger] rows[k], ':')).len() > 0 ==> {
                    &&& named_rows(rows, k) < picked.len()
                    &&& picked[named_rows(rows, k) as int] == trimmed(before_first(rows[k], ':'))
                }
        }),
    decreases count,
{
    let pick = |row: Seq<char>| row_adapter(row);
    if count > 0 {
        lemma_named_rows(rows, count - 1);
        assert(rows.take(count).drop_last() =~= rows.take(count - 1));
        assert(rows.take(count).last() == rows[count - 1]);
    }
}

/// A row that is added to the table adds the adapter before its colon, whatever
/// its name, the white space around it and the figures behind the colon.
pub proof fn law_row_adds_its_adapter(
    table: Seq<char>,
    front: Seq<char>,
    name: Seq<char>,
    back: Seq<char>,
    figures: Seq<char>,
)
    requires
        lines_of(table).len() >= 2,
        table.last() == '\n',
        forall|i: int| 0 <= i < front.len() ==> is_space(#[trigger] front[i]),
        forall|i: int| 0 <= i < back.len() ==> is_space(#[trigger] back[i]),
        name.len() > 0,
        !is_space(name.first()),
        !is_space(name.last()),
        !name.contains(':'),
        !(front + name + back + figures).contains('\n'),
    ensures
        table_adapters(table + (front + name + back + seq![':'] + figures) + seq!['\n'])
            == table_adapters(table).push(name),
        table_adapters(table + (front + name + back + seq![':'] + figures)) == table_adapters(
            table,
        ).push(name),
{
    let cut = front + name + back;
    let row = cut + seq![':'] + figures;
    assert(!cut.contains(':')) by {
        if cut.contains(':') {
            let j = choose|j: int| 0 <= j < cut.len() && cut[j] == ':';
            if j < front.len() {
                assert(is_space(front[j]));
            } else if j < front.len() + name.len() {
                assert(name[j - front.len()] == ':');
            } else {
                assert(is_space(back[j - front.len() - name.len()]));
            }
        }
    }
    let whole = cut + figures;
    assert(!row.contains('\n')) by {
        if row.contains('\n') {
            let j = choose|j: int| 0 <= j < row.len() && row[j] == '\n';
            if j < cut.len() {
                assert(whole[j] == '\n');
            } else {
                assert(whole[j - 1] == '\n');
            }
        }
    }
    law_trim_takes_off_the_ends(front, name, back);
    // The row may lose a carriage return at its end, behind the colon.
    law_cut_stops_at_the_first(cut, ':', figures);
    assert(row_adapter(row) == Some(name));
    law_last_line_needs_no_end(row);
    lemma_rows_added(table, row, row);
    let shown = strip_return(row);
    if row.last() == '\r' {
        assert(figures.len() > 0);
        let kept = figures.drop_last();
        assert(shown =~= cut + seq![':'] + kept);
        law_cut_stops_at_the_first(cut, ':', kept);
        law_line_feed_ends_a_line(shown, Seq::empty());
        assert(!shown.contains('\n')) by {
            if shown.contains('\n') {
                let j = choose|j: int| 0 <= j < shown.len() && shown[j] == '\n';
                assert(row[j] == '\n');
            }
        }
        assert(shown + seq!['\r', '\n'] + Seq::<char>::empty() =~= row + seq!['\n']);
    } else {
        law_line_feed_ends_a_line(row, Seq::empty());
        assert(row + seq!['\n'] + Seq::<char>::empty() =~= row + seq!['\n']);
    }
    law_last_line_needs_no_end(Seq::empty());
    assert(lines_of(row + seq!['\n']) =~= seq![shown]);
    lemma_rows_added(table, row + seq!['\n'], shown);
    assert(table + row + seq!['\n'] =~= table + (row + seq!['\n']));
}

proof fn lemma_rows_added(table: Seq<char>, text: Seq<char>, row: Seq<char>)
    requires
        lines_of(table).len() >= 2,
        table.last() == '\n',
        lines_of(text) == seq![row],
        row_adapter(row) is Some,
    ensures
        table_adapters(table + text) == table_adapters(table).push(row_adapter(row)->0),
{
    let pick = |row: Seq<char>| row_adapter(row);
    assert(table.len() > 0);
    law_lines_of_two_texts(table, text);
    let rows = table_rows(table + text);
    assert(rows.drop_last() =~= table_rows(table));
    assert(rows.last() == row);
    assert(table_adapters(table + text) =~= table_adapters(table).push(row_adapter(row)->0));
}

/// An entry of the network class is taken in exactly where its name begins with
/// the letters `wl`, whatever follows them; the order is kept.
pub proof fn law_class_takes_in_what_begins_with_wl(entries: Seq<Seq<char>>, name: Seq<char>)
    ensures
        class_adapters(Seq::empty()).len() == 0,
        class_adapters(entries.push(name)) == if name.len() >= 2 && name[0] == 'w' && name[1]
            == 'l' {
            class_adapters(entries).push(name)
        } else {
            class_adapters(entries)
        },
{
    reveal(Seq::filter);
    reveal_strlit("wl");
    assert(entries.push(name).drop_last() =~= entries);
    if "wl"@.is_prefix_of(name) {
        assert("wl"@[0] == name.subrange(0, 2)[0] && "wl"@[1] == name.subrange(0, 2)[1]);
    }
    if name.len() >= 2 && name[0] == 'w' && name[1] == 'l' {
        assert("wl"@ =~= name.subrange(0, 2));
    }
}

/// An entry of the socket directory is taken in unless it is the global socket
/// or ends with `.pid`; the order is kept.
pub proof fn law_sockets_leave_out_only_global_and_pid(entries: Seq<Seq<char>>, name: Seq<char>)
    ensures
        socket_interfaces(Seq::empty()).len() == 0,
        ({
            let n = name.len() as int;
            let global = name == seq!['g', 'l', 'o', 'b', 'a', 'l'];
            let pid = n >= 4 && name[n - 4] == '.' && name[n - 3] == 'p' && name[n - 2] == 'i'
                && name[n - 1] == 'd';
            socket_interfaces(entries.push(name)) == if global || pid {
                socket_interfaces(entries)
            } else {
                socket_interfaces(entries).push(name)
            }
        }),
{
    reveal(Seq::filter);
    reveal_strlit("global");
    reveal_strlit(".pid");
    assert(entries.push(name).drop_last() =~= entries);
    assert("global"@ =~= seq!['g', 'l', 'o', 'b', 'a', 'l']);
    let n = name.len() as int;
    if ".pid"@.is_suffix_of(name) {
        let end = name.subrange(n - 4, n);
        assert(".pid"@[0] == end[0] && ".pid"@[1] == end[1] && ".pid"@[2] == end[2] && ".pid"@[3]
            == end[3]);
    }
    if n >= 4 && name[n - 4] == '.' && name[n - 3] == 'p' && name[n - 2] == 'i' && name[n - 1]
        == 'd' {
        assert(".pid"@ =~= name.subrange(n - 4, n));
    }
}

/// The lists that are read are those of the entries: an adapter is listed where
/// it is an entry whose name begins with `wl`, and an interface where it is an
/// entry that is neither the global socket nor a pid file.
pub proof fn law_listings_hold_what_they_should(
    entries: Vec<String>,
    adapters: Vec<String>,
    interfaces: Vec<String>,
    name: Seq<char>,
)
    requires
        call_ensures(wifi_interfaces_from_sysfs, (&entries,), adapters),
        call_ensures(wpa_socket_interfaces, (&entries,), interfaces),
    ensures
        views(adapters@).contains(name) <==> views(entries@).contains(name) && name.len() >= 2
            && name[0] == 'w' && name[1] == 'l',
        views(interfaces@).contains(name) <==> views(entries@).contains(name) && name != "global"@
            && !".pid"@.is_suffix_of(name),
{
    let names = views(entries@);
    let wl = |name: Seq<char>| "wl"@.is_prefix_of(name);
    let control = |name: Seq<char>| is_control_socket(name);
    reveal_strlit("wl");
    if names.contains(name) {
        if name.len() >= 2 && name[0] == 'w' && name[1] == 'l' {
            assert("wl"@ =~= name.subrange(0, 2));
        }
        if wl(name) {
            names.lemma_filter_contains(wl, names.index_of(name));
        }
        if control(name) {
            names.lemma_filter_contains(control, names.index_of(name));
        }
    }
    if views(adapters@).contains(name) {
        let i = choose|i: int| 0 <= i < names.filter(wl).len() && names.filter(wl)[i] == name;
        names.lemma_filter_pred(wl, i);
        names.lemma_filter_contains_rev(wl, name);
        assert("wl"@[0] == name.subrange(0, 2)[0] && "wl"@[1] == name.subrange(0, 2)[1]);
    }
    if views(interfaces@).contains(name) {
        let i = choose|i: int|
            0 <= i < names.filter(control).len() && names.filter(control)[i] == name;
        names.lemma_filter_pred(control, i);
        names.lemma_filter_contains_rev(control, name);
    }
}

} // verus!
