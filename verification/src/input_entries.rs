//! The saved entries of typed input, as the commands hand them out, and the
//! applications that can be excluded from tracking.

use crate::numfmt::{decimal, push_decimal};
use crate::buffers::extend_copy;
use crate::text::{
    chars_eq, chars_le, copy_str, from_chars, lemma_lex_le_total, lemma_lex_le_transitive,
    lex_le, lowercased, split, split_seq, str_eq, to_chars, to_lowercase, views,
};
use vstd::prelude::*;

verus! {

/// One saved entry.
#[derive(Clone, Debug, PartialEq, Eq)]
pub struct InputEntry {
    pub id: i64,
    pub app_name: String,
    pub app_bundle_id: Option<String>,
    pub app_pid: Option<i32>,
    pub window_title: Option<String>,
    pub content: String,
    pub timestamp: i64,
    pub duration_ms: i64,
}

/// The query that reads the entries, newest first, at most `limit` of them
/// where a limit is given.
pub open spec fn entries_query_text(limit: Option<usize>) -> Seq<char> {
    "SELECT id, app_name, app_bundle_id, app_pid, window_title, content, timestamp, duration_ms \n         FROM input_entries ORDER BY timestamp DESC"@
        + match limit {
        Some(l) => " LIMIT "@ + decimal(l as nat),
        None => Seq::<char>::empty(),
    }
}

/// The query that reads the entries.
pub fn entries_query(limit: Option<usize>) -> (r: String)
    ensures
        r@ == entries_query_text(limit),
{
    let mut text = to_chars(
        "SELECT id, app_name, app_bundle_id, app_pid, window_title, content, timestamp, duration_ms \n         FROM input_entries ORDER BY timestamp DESC",
    );
    match limit {
        Some(l) => {
            let ghost before = text@;
            let mut clause = to_chars(" LIMIT ");
            push_decimal(&mut clause, l as u64);
            extend_copy(&mut text, &clause);
        },
        None => {
            assert(text@ =~= text@ + Seq::<char>::empty());
        },
    }
    from_chars(&text)
}

/// The two lists in a line of names followed by as many bundle ids, all
/// separated by a comma and a space: the first half and the second half.
/// `None` where the line holds fewer than two items or an odd number.
pub open spec fn applescript_lists(input: Seq<char>) -> Option<(Seq<Seq<char>>, Seq<Seq<char>>)> {
    let items = split_seq(input, ", "@);
    if items.len() < 2 || items.len() % 2 != 0 {
        None
    } else {
        Some(
            (
                items.subrange(0, items.len() as int / 2),
                items.subrange(items.len() as int / 2, items.len() as int),
            ),
        )
    }
}

/// The texts of a list of strings.
pub open spec fn string_texts(v: Seq<String>) -> Seq<Seq<char>> {
    Seq::new(v.len(), |i: int| v[i]@)
}

fn to_strings(pieces: &Vec<Vec<char>>, from: usize, to: usize) -> (r: Vec<String>)
    requires
        from <= to <= pieces.len(),
    ensures
        string_texts(r@) == views(pieces@).subrange(from as int, to as int),
{
    let mut out: Vec<String> = Vec::new();
    let mut i: usize = from;
    while i < to
        invariant
            from <= i <= to <= pieces.len(),
            out@.len() == i - from,
            forall|j: int| 0 <= j < out@.len() ==> out@[j]@ == pieces@[from + j]@,
        decreases to - i,
    {
        out.push(from_chars(&pieces[i]));
        i += 1;
    }
    assert(string_texts(out@) =~= views(pieces@).subrange(from as int, to as int));
    out
}

/// Cuts a line of names and bundle ids into its two lists.
pub fn parse_applescript_lists(input: &str) -> (r: Option<(Vec<String>, Vec<String>)>)
    ensures
        match r {
            Some((names, ids)) => applescript_lists(input@) == Some(
                (string_texts(names@), string_texts(ids@)),
            ),
            None => applescript_lists(input@) is None,
        },
{
    let text = to_chars(input);
    let sep = to_chars(", ");
    proof {
        reveal_strlit(", ");
    }
    let items = split(&text, &sep);
    let n = items.len();
    if n < 2 || n % 2 != 0 {
        return None;
    }
    let mid = n / 2;
    let names = to_strings(&items, 0, mid);
    let ids = to_strings(&items, mid, n);
    Some((names, ids))
}

/// An application: its name and its bundle id.
#[derive(Clone, Debug, PartialEq, Eq)]
pub struct AppEntry {
    pub name: String,
    pub bundle_id: String,
}

/// Whether a list holds an application of the given bundle id.
pub open spec fn has_bundle(apps: Seq<AppEntry>, bundle_id: Seq<char>) -> bool {
    exists|i: int| 0 <= i < apps.len() && (#[trigger] apps[i]).bundle_id@ == bundle_id
}

/// Whether the list holds an application of the given bundle id.
pub fn contains_bundle(apps: &Vec<AppEntry>, bundle_id: &str) -> (r: bool)
    ensures
        r == has_bundle(apps@, bundle_id@),
{
    let wanted = to_chars(bundle_id);
    let mut i: usize = 0;
    while i < apps.len()
        invariant
            i <= apps.len(),
            wanted@ == bundle_id@,
            forall|j: int| 0 <= j < i ==> (#[trigger] apps@[j]).bundle_id@ != bundle_id@,
        decreases apps.len() - i,
    {
        let have = to_chars(apps[i].bundle_id.as_str());
        if chars_eq(&have, &wanted) {
            return true;
        }
        i += 1;
    }
    false
}

/// A copy of an application.
pub fn copy_app(app: &AppEntry) -> (r: AppEntry)
    ensures
        r == *app,
{
    AppEntry { name: app.name.clone(), bundle_id: app.bundle_id.clone() }
}

/// The list with `app` at its end, unless an application of its bundle id
/// is in the list already.
pub open spec fn with_new_app(apps: Seq<AppEntry>, app: AppEntry) -> Seq<AppEntry> {
    if has_bundle(apps, app.bundle_id@) {
        apps
    } else {
        apps.push(app)
    }
}

/// The list with each of `more` added in turn, unless an application of
/// its bundle id is in the list by then.
pub open spec fn with_new_apps(apps: Seq<AppEntry>, more: Seq<AppEntry>) -> Seq<AppEntry>
    decreases more.len(),
{
    if more.len() == 0 {
        apps
    } else {
        with_new_app(with_new_apps(apps, more.drop_last()), more.last())
    }
}

/// Adds an application to the list unless one of its bundle id is there.
/// Returns whether it was added.
pub fn add_if_new(apps: &mut Vec<AppEntry>, app: &AppEntry) -> (added: bool)
    ensures
        added == !has_bundle(old(apps)@, app.bundle_id@),
        final(apps)@ == with_new_app(old(apps)@, *app),
{
    if contains_bundle(apps, app.bundle_id.as_str()) {
        false
    } else {
        apps.push(copy_app(app));
        true
    }
}

/// Adds each of `more` in turn, unless an application of its bundle id is
/// in the list by then.
pub fn add_all_new(apps: &mut Vec<AppEntry>, more: &Vec<AppEntry>)
    ensures
        final(apps)@ == with_new_apps(old(apps)@, more@),
{
    let mut i: usize = 0;
    assert(more@.subrange(0, 0) =~= Seq::<AppEntry>::empty());
    while i < more.len()
        invariant
            i <= more.len(),
            apps@ == with_new_apps(old(apps)@, more@.subrange(0, i as int)),
        decreases more.len() - i,
    {
        assert(more@.subrange(0, i + 1).drop_last() =~= more@.subrange(0, i as int));
        let _ = add_if_new(apps, &more[i]);
        i += 1;
    }
    assert(more@.subrange(0, more.len() as int) =~= more@);
}

/// The key by which applications are ordered: the name in lower case.
pub open spec fn name_key(app: AppEntry) -> Seq<char> {
    lowercased(app.name@)
}

/// The applications stand in the order of their keys.
pub open spec fn ordered_by_name(apps: Seq<AppEntry>) -> bool {
    forall|i: int, j: int|
        0 <= i < j < apps.len() ==> lex_le(
            name_key(#[trigger] apps[i]),
            name_key(#[trigger] apps[j]),
        )
}

/// Where an application of the key `key` goes into an ordered list, looking
/// from `from` on: before the first application whose key comes after it.
pub open spec fn insert_position(apps: Seq<AppEntry>, key: Seq<char>, from: int) -> int
    decreases apps.len() - from + 1,
{
    if from < 0 || from >= apps.len() {
        apps.len() as int
    } else if !lex_le(name_key(apps[from]), key) {
        from
    } else {
        insert_position(apps, key, from + 1)
    }
}

/// The ordered list with `app` put in: behind every application whose key
/// does not come after its own.
pub open spec fn with_app_inserted(apps: Seq<AppEntry>, app: AppEntry) -> Seq<AppEntry> {
    apps.insert(insert_position(apps, name_key(app), 0), app)
}

/// The applications in the order of their names in lower case; those of
/// the same key stay in the order in which they came.
pub open spec fn sorted_by_name(apps: Seq<AppEntry>) -> Seq<AppEntry>
    decreases apps.len(),
{
    if apps.len() == 0 {
        apps
    } else {
        with_app_inserted(sorted_by_name(apps.drop_last()), apps.last())
    }
}

/// The place found lies in the list; every application from `from` up to
/// it has a key that does not come after `key`, and the one at it has a key
/// that does.
pub proof fn lemma_insert_position(apps: Seq<AppEntry>, key: Seq<char>, from: int)
    requires
        0 <= from <= apps.len(),
    ensures
        from <= insert_position(apps, key, from) <= apps.len(),
        forall|i: int|
            from <= i < insert_position(apps, key, from) ==> lex_le(
                name_key(#[trigger] apps[i]),
                key,
            ),
        insert_position(apps, key, from) < apps.len() ==> !lex_le(
            name_key(apps[insert_position(apps, key, from)]),
            key,
        ),
    decreases apps.len() - from,
{
    if from < apps.len() && lex_le(name_key(apps[from]), key) {
        lemma_insert_position(apps, key, from + 1);
    }
}

/// Putting an application into an ordered list leaves the list ordered.
pub proof fn lemma_insert_keeps_order(apps: Seq<AppEntry>, app: AppEntry)
    requires
        ordered_by_name(apps),
    ensures
        ordered_by_name(with_app_inserted(apps, app)),
{
    let key = name_key(app);
    let p = insert_position(apps, key, 0);
    lemma_insert_position(apps, key, 0);
    let after = with_app_inserted(apps, app);
    assert forall|i: int, j: int| 0 <= i < j < after.len() implies lex_le(
        name_key(#[trigger] after[i]),
        name_key(#[trigger] after[j]),
    ) by {
        if j < p {
            assert(after[i] == apps[i] && after[j] == apps[j]);
        } else if j == p {
            assert(after[i] == apps[i]);
        } else if i == p {
            assert(after[j] == apps[j - 1]);
            lemma_lex_le_total(name_key(apps[p]), key);
            if j - 1 > p {
                assert(lex_le(name_key(apps[p]), name_key(apps[j - 1])));
                lemma_lex_le_transitive(key, name_key(apps[p]), name_key(apps[j - 1]));
            }
        } else if i < p {
            assert(after[i] == apps[i] && after[j] == apps[j - 1]);
        } else {
            assert(after[i] == apps[i - 1] && after[j] == apps[j - 1]);
        }
    }
}

/// Sorting gives an ordered list.
pub proof fn law_sorted_is_ordered(apps: Seq<AppEntry>)
    ensures
        ordered_by_name(sorted_by_name(apps)),
    decreases apps.len(),
{
    if apps.len() > 0 {
        law_sorted_is_ordered(apps.drop_last());
        lemma_insert_keeps_order(sorted_by_name(apps.drop_last()), apps.last());
    }
}

/// Sorting neither adds nor loses an application.
pub proof fn law_sorted_is_permutation(apps: Seq<AppEntry>)
    ensures
        sorted_by_name(apps).to_multiset() == apps.to_multiset(),
    decreases apps.len(),
{
    if apps.len() > 0 {
        let rest = apps.drop_last();
        law_sorted_is_permutation(rest);
        let sorted = sorted_by_name(rest);
        lemma_insert_position(sorted, name_key(apps.last()), 0);
        vstd::seq_lib::to_multiset_insert(
            sorted,
            insert_position(sorted, name_key(apps.last()), 0),
            apps.last(),
        );
        vstd::seq_lib::to_multiset_build(rest, apps.last());
        assert(rest.push(apps.last()) =~= apps);
    }
}

/// Orders the applications by their names in lower case.
pub fn sort_by_name(apps: &Vec<AppEntry>) -> (r: Vec<AppEntry>)
    ensures
        r@ == sorted_by_name(apps@),
{
    let mut out: Vec<AppEntry> = Vec::new();
    let mut keys: Vec<Vec<char>> = Vec::new();
    let mut n: usize = 0;
    assert(apps@.subrange(0, 0) =~= Seq::<AppEntry>::empty());
    while n < apps.len()
        invariant
            n <= apps.len(),
            out@ == sorted_by_name(apps@.subrange(0, n as int)),
            keys@.len() == out@.len(),
            forall|j: int| 0 <= j < out@.len() ==> (#[trigger] keys@[j])@ == name_key(out@[j]),
        decreases apps.len() - n,
    {
        let entry = copy_app(&apps[n]);
        let key = to_lowercase(&to_chars(entry.name.as_str()));
        let mut p: usize = 0;
        while p < keys.len() && chars_le(&keys[p], &key)
            invariant
                p <= keys.len(),
                keys@.len() == out@.len(),
                forall|j: int|
                    0 <= j < out@.len() ==> (#[trigger] keys@[j])@ == name_key(out@[j]),
                insert_position(out@, key@, 0) == insert_position(out@, key@, p as int),
            decreases keys.len() - p,
        {
            p += 1;
        }
        proof {
            assert(apps@.subrange(0, n + 1).drop_last() =~= apps@.subrange(0, n as int));
            assert(apps@.subrange(0, n + 1).last() == entry);
            assert(key@ == name_key(entry));
            assert(insert_position(out@, key@, 0) == p);
        }
        out.insert(p, entry);
        keys.insert(p, key);
        n += 1;
    }
    assert(apps@.subrange(0, apps.len() as int) =~= apps@);
    out
}

/// The applications without those that follow one of the same bundle id
/// that was kept.
pub open spec fn without_repeats(apps: Seq<AppEntry>) -> Seq<AppEntry>
    decreases apps.len(),
{
    if apps.len() == 0 {
        apps
    } else {
        let kept = without_repeats(apps.drop_last());
        if kept.len() > 0 && kept.last().bundle_id@ == apps.last().bundle_id@ {
            kept
        } else {
            kept.push(apps.last())
        }
    }
}

/// Drops each application that follows one of the same bundle id.
pub fn drop_repeats(apps: &Vec<AppEntry>) -> (r: Vec<AppEntry>)
    ensures
        r@ == without_repeats(apps@),
{
    let mut out: Vec<AppEntry> = Vec::new();
    let mut i: usize = 0;
    assert(apps@.subrange(0, 0) =~= Seq::<AppEntry>::empty());
    while i < apps.len()
        invariant
            i <= apps.len(),
            out@ == without_repeats(apps@.subrange(0, i as int)),
        decreases apps.len() - i,
    {
        assert(apps@.subrange(0, i + 1).drop_last() =~= apps@.subrange(0, i as int));
        let repeated = out.len() > 0 && str_eq(
            out[out.len() - 1].bundle_id.as_str(),
            apps[i].bundle_id.as_str(),
        );
        if !repeated {
            out.push(copy_app(&apps[i]));
        }
        i += 1;
    }
    assert(apps@.subrange(0, apps.len() as int) =~= apps@);
    out
}

/// The applications on offer: those that run, then those that are
/// installed and those that are common, each unless its bundle id is there
/// already; ordered by name, and without an application that follows one of
/// the same bundle id.
pub open spec fn offered_apps(
    running: Seq<AppEntry>,
    installed: Seq<AppEntry>,
    common: Seq<AppEntry>,
) -> Seq<AppEntry> {
    without_repeats(sorted_by_name(with_new_apps(with_new_apps(running, installed), common)))
}

/// Puts the list of applications together.
pub fn list_apps(running: Vec<AppEntry>, installed: &Vec<AppEntry>) -> (r: Vec<AppEntry>)
    ensures
        exists|common: Seq<AppEntry>|
            app_texts(common) == common_app_texts() && r@ == offered_apps(
                running@,
                installed@,
                common,
            ),
{
    let mut apps = running;
    add_all_new(&mut apps, installed);
    let common = common_apps();
    add_all_new(&mut apps, &common);
    let sorted = sort_by_name(&apps);
    let r = drop_repeats(&sorted);
    assert(app_texts(common@) == common_app_texts() && r@ == offered_apps(
        running@,
        installed@,
        common@,
    ));
    r
}

/// The name and bundle id of an application, as plain text.
pub open spec fn app_texts(apps: Seq<AppEntry>) -> Seq<(Seq<char>, Seq<char>)> {
    Seq::new(apps.len(), |i: int| (apps[i].name@, apps[i].bundle_id@))
}

/// The pairs of the first `n` names and bundle ids whose name and bundle
/// id are both there, in order.
pub open spec fn running_pairs(names: Seq<Seq<char>>, ids: Seq<Seq<char>>, n: nat) -> Seq<
    (Seq<char>, Seq<char>),
>
    decreases n,
{
    if n == 0 || n > names.len() || n > ids.len() {
        Seq::<(Seq<char>, Seq<char>)>::empty()
    } else if names[n - 1].len() > 0 && ids[n - 1].len() > 0 {
        running_pairs(names, ids, (n - 1) as nat).push((names[n - 1], ids[n - 1]))
    } else {
        running_pairs(names, ids, (n - 1) as nat)
    }
}

/// The applications that run, out of the two lists of names and bundle
/// ids: each pair whose name and bundle id are both there, as far as both
/// lists go.
pub fn running_apps(names: &Vec<String>, ids: &Vec<String>) -> (r: Vec<AppEntry>)
    ensures
        app_texts(r@) == running_pairs(
            string_texts(names@),
            string_texts(ids@),
            if names.len() <= ids.len() {
                names.len() as nat
            } else {
                ids.len() as nat
            },
        ),
{
    let mut out: Vec<AppEntry> = Vec::new();
    let mut i: usize = 0;
    assert(app_texts(out@) =~= running_pairs(string_texts(names@), string_texts(ids@), 0));
    while i < names.len() && i < ids.len()
        invariant
            i <= names.len(),
            i <= ids.len(),
            app_texts(out@) == running_pairs(string_texts(names@), string_texts(ids@), i as nat),
        decreases names.len() - i,
    {
        let ghost before = app_texts(out@);
        if names[i].as_str().unicode_len() > 0 && ids[i].as_str().unicode_len() > 0 {
            let entry = AppEntry { name: names[i].clone(), bundle_id: ids[i].clone() };
            out.push(entry);
            assert(app_texts(out@) =~= before.push((names@[i as int]@, ids@[i as int]@)));
        }
        i += 1;
    }
    out
}

/// The applications that are offered although they may be installed where
/// they are not looked for: name and bundle id of each.
pub open spec fn common_app_texts() -> Seq<(Seq<char>, Seq<char>)> {
    seq![
        ("Visual Studio Code"@, "com.microsoft.VSCode"@),
        ("Cursor"@, "com.todesktop.230313mzl4w4u92"@),
        ("Safari"@, "com.apple.Safari"@),
        ("Google Chrome"@, "com.google.Chrome"@),
        ("Firefox"@, "org.mozilla.firefox"@),
        ("Slack"@, "com.tinyspeck.slackmacgap"@),
        ("Discord"@, "com.discord"@),
        ("Notion"@, "notion.id"@),
        ("Terminal"@, "com.apple.Terminal"@),
        ("iTerm2"@, "com.googlecode.iterm2"@),
        ("1Password"@, "com.1password.1password"@),
        ("Bitwarden"@, "com.bitwarden.desktop"@),
    ]
}

/// The applications that are offered in any case.
pub fn common_apps() -> (r: Vec<AppEntry>)
    ensures
        app_texts(r@) == common_app_texts(),
{
    let mut v: Vec<AppEntry> = Vec::new();
    v.push(app("Visual Studio Code", "com.microsoft.VSCode"));
    v.push(app("Cursor", "com.todesktop.230313mzl4w4u92"));
    v.push(app("Safari", "com.apple.Safari"));
    v.push(app("Google Chrome", "com.google.Chrome"));
    v.push(app("Firefox", "org.mozilla.firefox"));
    v.push(app("Slack", "com.tinyspeck.slackmacgap"));
    v.push(app("Discord", "com.discord"));
    v.push(app("Notion", "notion.id"));
    v.push(app("Terminal", "com.apple.Terminal"));
    v.push(app("iTerm2", "com.googlecode.iterm2"));
    v.push(app("1Password", "com.1password.1password"));
    v.push(app("Bitwarden", "com.bitwarden.desktop"));
    assert(app_texts(v@) =~= common_app_texts());
    v
}

fn app(name: &str, bundle_id: &str) -> (r: AppEntry)
    ensures
        r.name@ == name@,
        r.bundle_id@ == bundle_id@,
{
    AppEntry { name: copy_str(name), bundle_id: copy_str(bundle_id) }
}

/// The applications offered on a system where none can be listed: none.
pub fn get_apps_impl() -> (r: Vec<AppEntry>)
    ensures
        r@.len() == 0,
{
    Vec::new()
}

} // verus!
