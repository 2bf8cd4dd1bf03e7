//! Names the screens show: a program's tab, an avatar's letters, the node
//! a screen is about, what an empty window says.

use vstd::prelude::*;

use std::hash::Hasher;
use vstd::string::StringSliceAdditionalSpecFns;
use vstd::std_specs::hash::DefaultHasherAdditionalSpecFns;
use crate::model::RecentEndpoint;
use crate::text::{
    chars_of, push_all, push_str, same_text, string_of, upper, upper_of, white,
    words, words_of,
};

verus! {

/// One program on the rail: its module, its name, a note while its
/// manifest is loading (or failed), and whether it ships no view.
pub struct RailRow {
    pub module: &'static str,
    pub label: String,
    pub note: Option<&'static str>,
    pub empty: bool,
}

/// `s` with its hyphens read as spaces.
pub open spec fn spaced(s: Seq<char>) -> Seq<char> {
    s.map_values(|c: char| if c == '-' { ' ' } else { c })
}

/// A raw id as a label: hyphens to spaces, the first letter upper case.
pub open spec fn prettified(id: Seq<char>) -> Seq<char> {
    let s = spaced(id);
    if s.len() == 0 {
        s
    } else {
        upper_of(s[0]) + s.drop_first()
    }
}

/// A raw program id read as a tab label before its manifest arrives, or
/// after it failed to: hyphens to spaces, first letter capitalised —
/// "module-registry" reads "Module registry".
pub fn prettify(id: &str) -> (out: String)
    ensures
        out@ == prettified(id@),
{
    let chars = chars_of(id);
    let n = chars.len();
    let mut spaced_chars: Vec<char> = Vec::new();
    for i in 0..n
        invariant
            n == chars@.len(),
            chars@ == id@,
            spaced_chars@ == spaced(id@).take(i as int),
    {
        let c = chars[i];
        spaced_chars.push(if c == '-' { ' ' } else { c });
        assert(spaced(id@).take(i + 1) =~= spaced(id@).take(i as int).push(spaced(id@)[i as int]));
    }
    assert(spaced(id@).take(n as int) =~= spaced(id@));
    if n == 0 {
        return string_of(&spaced_chars);
    }
    let mut out = upper(spaced_chars[0]);
    let mut rest: Vec<char> = Vec::new();
    for i in 1..n
        invariant
            n == spaced_chars@.len(),
            n >= 1,
            rest@ == spaced_chars@.subrange(1, i as int),
    {
        rest.push(spaced_chars[i]);
        assert(spaced_chars@.subrange(1, i + 1) =~= spaced_chars@.subrange(1, i as int).push(spaced_chars@[i as int]));
    }
    push_all(&mut out, &rest);
    assert(spaced_chars@.drop_first() =~= spaced_chars@.subrange(1, n as int));
    string_of(&out)
}



/// The first letters of the first two words of `name`, in upper case.
pub open spec fn letters_of(name: Seq<char>) -> Seq<char> {
    let w = words_of(name);
    if w.len() == 0 {
        seq![]
    } else if w.len() == 1 {
        upper_of(w[0][0])
    } else {
        upper_of(w[0][0]) + upper_of(w[1][0])
    }
}

/// An account's avatar letters: "?" for a name with none.
pub open spec fn initials_text(name: Seq<char>) -> Seq<char> {
    if letters_of(name).len() == 0 {
        seq!['?']
    } else {
        letters_of(name)
    }
}

/// The avatar's letters for an account `name`: the first letter of its
/// first two words ("Ada Lovelace" → "AL", "ada" → "A"), "?" for none.
pub fn initials(name: &str) -> (out: String)
    ensures
        out@ == initials_text(name@),
        words_of(name@).len() == 0 ==> out@ == seq!['?'],
        words_of(name@).len() >= 1 ==> out@ == letters_of(name@) && 1 <= out@.len(),
{
    let w = words(name);
    proof {
        crate::text::lemma_words_nonempty(name@);
    }
    let mut letters: Vec<char> = Vec::new();
    if w.len() >= 1 {
        assert(w@[0]@ == words_of(name@)[0]);
        let first = upper(w[0][0]);
        push_all(&mut letters, &first);
    }
    if w.len() >= 2 {
        assert(w@[1]@ == words_of(name@)[1]);
        let second = upper(w[1][0]);
        push_all(&mut letters, &second);
    }
    assert(letters@ =~= letters_of(name@));
    if letters.len() == 0 {
        let mut out: Vec<char> = Vec::new();
        out.push('?');
        string_of(&out)
    } else {
        string_of(&letters)
    }
}

/// A program's name on the bar. Before the manifest lands (or if it never
/// does) the label is the program's own id, prettified.
pub fn tab_label(row: &RailRow) -> (out: String)
    ensures
        out@ == (if row.note is Some { prettified(row.label@) } else { row.label@ }),
{
    match row.note {
        Some(_) => prettify(row.label.as_str()),
        None => row.label.clone(),
    }
}

/// `i` is the first row of `rail` for `module`.
pub open spec fn first_row(rail: Seq<RailRow>, module: Seq<char>, i: int) -> bool {
    &&& 0 <= i < rail.len()
    &&& rail[i].module@ == module
    &&& forall|j: int| 0 <= j < i ==> rail[j].module@ != module
}

/// A window's title: "Empty" for an empty one, else the program's name on
/// `rail`, else its module.
pub fn label(module: &str, rail: &[RailRow]) -> (out: String)
    ensures
        module@.len() == 0 ==> out@ == "Empty"@,
        module@.len() > 0 ==> {
            &&& (forall|i: int| first_row(rail@, module@, i) ==> out@ == rail@[i].label@)
            &&& (forall|i: int| 0 <= i < rail@.len() ==> rail@[i].module@ != module@) ==> out@ == module@
        },
{
    if module.is_empty() {
        return String::from_str("Empty");
    }
    let n = rail.len();
    for i in 0..n
        invariant
            n == rail@.len(),
            module@.len() > 0,
            forall|j: int| 0 <= j < i ==> rail@[j].module@ != module@,
    {
        if same_text(rail[i].module, module) {
            return rail[i].label.clone();
        }
    }
    module.to_owned()
}

/// Whether the rail lists something that can be opened.
pub open spec fn any_viewable(rail: Seq<RailRow>) -> bool {
    exists|i: int| 0 <= i < rail.len() && !rail[i].empty
}

/// What an empty pane strip says: the rail lists what the network runs,
/// so an empty pane list beside a non-empty rail means every pane here was
/// closed or popped out, not that the network has nothing to show.
/// `search` is how this platform writes the Search chord (⌘K, Ctrl+K).
pub fn empty_panes_message(rail: &[RailRow], search: &str) -> (out: String)
    ensures
        any_viewable(rail@) ==> out@ == "Press "@ + search@ + " to open something."@,
        !any_viewable(rail@) ==> out@ == "This network runs no program with a view."@,
{
    let n = rail.len();
    let mut any = false;
    for i in 0..n
        invariant
            n == rail@.len(),
            any == exists|j: int| 0 <= j < i && !rail@[j].empty,
    {
        if !rail[i].empty {
            any = true;
        }
    }
    if any {
        let mut out: Vec<char> = Vec::new();
        push_str(&mut out, "Press ");
        push_str(&mut out, search);
        push_str(&mut out, " to open something.");
        string_of(&out)
    } else {
        String::from_str("This network runs no program with a view.")
    }
}

/// What an empty window lists: the rail's programs that have a view, as
/// the menu bar shows them.
/// The rows of `rail` a window can open (those with a view), as their
/// places in the rail, in order.
pub open spec fn viewable(rail: Seq<RailRow>) -> Seq<usize>
    decreases rail.len(),
{
    if rail.len() == 0 {
        seq![]
    } else {
        let before = viewable(rail.drop_last());
        if rail.last().empty { before } else { before.push((rail.len() - 1) as usize) }
    }
}

pub fn openable(rail: &[RailRow]) -> (rows: Vec<usize>)
    ensures
        rows@ == viewable(rail@),
        forall|k: int| 0 <= k < rows@.len() ==> #[trigger] rows@[k] < rail@.len() && !rail@[rows@[k] as int].empty,
        forall|a: int, b: int| 0 <= a < b < rows@.len() ==> #[trigger] rows@[a] < #[trigger] rows@[b],
        forall|i: int| 0 <= i < rail@.len() && !rail@[i].empty ==> rows@.contains(i as usize),
{
    let n = rail.len();
    let mut rows: Vec<usize> = Vec::new();
    for i in 0..n
        invariant
            n == rail@.len(),
            forall|k: int| 0 <= k < rows@.len() ==> #[trigger] rows@[k] < i && !rail@[rows@[k] as int].empty,
            forall|a: int, b: int| 0 <= a < b < rows@.len() ==> #[trigger] rows@[a] < #[trigger] rows@[b],
            forall|j: int| 0 <= j < i && !rail@[j].empty ==> rows@.contains(j as usize),
            rows@ == viewable(rail@.take(i as int)),
    {
        assert(rail@.take(i + 1).drop_last() =~= rail@.take(i as int));
        if !rail[i].empty {
            let ghost before = rows@;
            rows.push(i);
            proof {
                assert forall|j: int| 0 <= j < i + 1 && !rail@[j].empty implies rows@.contains(j as usize) by {
                    if j < i {
                        let m = choose|m: int| 0 <= m < before.len() && before[m] == j as usize;
                        assert(rows@[m] == before[m]);
                    } else {
                        assert(rows@[before.len() as int] == i);
                    }
                }
            }
        }
    }
    assert(rail@.take(n as int) =~= rail@);
    rows
}

/// Where `t` first occurs in `s` at `i` or later; -1 if it does not.
pub open spec fn find_from(s: Seq<char>, t: Seq<char>, i: nat) -> int
    decreases s.len() + 1 - i,
{
    if i + t.len() > s.len() {
        -1
    } else if s.subrange(i as int, (i + t.len()) as int) == t {
        i as int
    } else {
        find_from(s, t, i + 1)
    }
}

/// The host (and port) of a node's address: what follows its scheme's
/// "://", up to the path.
pub open spec fn host_text(url: Seq<char>) -> Seq<char> {
    let k = find_from(url, "://"@, 0);
    let rest = if k >= 0 { url.skip(k + 3) } else { url };
    let m = find_from(rest, "/"@, 0);
    if m >= 0 { rest.take(m) } else { rest }
}

/// Where `t` first occurs in `s`: `find_from(s, t, 0)`.
pub fn find(s: &Vec<char>, t: &Vec<char>) -> (at: Option<usize>)
    ensures
        at matches Some(i) ==> find_from(s@, t@, 0) == i && i + t@.len() <= s@.len(),
        at is None ==> find_from(s@, t@, 0) == -1,
{
    let n = s.len();
    let m = t.len();
    let mut i: usize = 0;
    while i <= n && m <= n - i
        invariant
            n == s@.len(),
            m == t@.len(),
            find_from(s@, t@, 0) == find_from(s@, t@, i as nat),
        decreases n - i,
    {
        let mut j: usize = 0;
        let mut matched = true;
        while j < m
            invariant
                n == s@.len(),
                m == t@.len(),
                i + m <= n,
                j <= m,
                matched == forall|k: int| 0 <= k < j ==> s@[i + k] == t@[k],
            decreases m - j,
        {
            if s[i + j] != t[j] {
                matched = false;
            }
            j = j + 1;
        }
        let ghost sub = s@.subrange(i as int, i + m);
        if matched {
            assert forall|k: int| 0 <= k < m implies sub[k] == t@[k] by {
                assert(sub[k] == s@[i + k]);
            }
            assert(sub =~= t@);
            return Some(i);
        }
        proof {
            let k = choose|k: int| 0 <= k < m && s@[i + k] != t@[k];
            assert(sub[k] != t@[k]);
        }
        i = i + 1;
    }
    None
}

/// The characters of `s` from `from` to `to`.
fn slice_chars(s: &Vec<char>, from: usize, to: usize) -> (out: Vec<char>)
    requires
        from <= to <= s@.len(),
    ensures
        out@ == s@.subrange(from as int, to as int),
{
    let mut out: Vec<char> = Vec::new();
    for i in from..to
        invariant
            to <= s@.len(),
            out@ == s@.subrange(from as int, i as int),
    {
        out.push(s[i]);
        assert(s@.subrange(from as int, i + 1) =~= s@.subrange(from as int, i as int).push(s@[i as int]));
    }
    out
}

/// The host of a node's address.
pub fn host_of(url: &str) -> (host: Vec<char>)
    ensures
        host@ == host_text(url@),
{
    let url = chars_of(url);
    let mut scheme: Vec<char> = Vec::new();
    push_str(&mut scheme, "://");
    let mut slash: Vec<char> = Vec::new();
    slash.push('/');
    proof {
        reveal_strlit("://");
        reveal_strlit("/");
        assert(scheme@ =~= "://"@);
        assert(slash@ =~= "/"@);
    }
    assert(scheme@.len() == 3);
    let found = find(&url, &scheme);
    let rest = match found {
        Some(k) => {
            assert(k + scheme@.len() <= url@.len());
            assert(scheme@.len() == 3);
            assert(k + 3 <= url.len());
            slice_chars(&url, k + 3, url.len())
        },
        None => slice_chars(&url, 0, url.len()),
    };
    assert(url@.subrange(0, url@.len() as int) =~= url@);
    match find(&rest, &slash) {
        Some(m) => {
            assert(rest@.subrange(0, m as int) =~= rest@.take(m as int));
            slice_chars(&rest, 0, m)
        },
        None => rest,
    }
}

/// How a node reached before is named: by its network, or by its host
/// while it named none.
pub open spec fn endpoint_name(entry: RecentEndpoint) -> Seq<char> {
    if entry.network@.len() > 0 { entry.network@ } else { host_text(entry.url@) }
}

impl RecentEndpoint {
    /// Its host, as a row's detail shows it.
    pub fn host(&self) -> (host: String)
        ensures
            host@ == host_text(self.url@),
    {
        string_of(&host_of(self.url.as_str()))
    }

    /// Its name, as the Recent list and the switcher show it.
    pub fn name(&self) -> (name: String)
        ensures
            name@ == endpoint_name(*self),
    {
        if self.network.unicode_len() > 0 {
            self.network.clone()
        } else {
            self.host()
        }
    }
}

/// A field's text reduced to what a draw compares, so a mirrored password
/// is not kept a second time in the clear: the text's bytes and the `0xff`
/// that ends a `str` hashed with the standard hasher.
pub fn digest(text: &str) -> (hash: u64)
    ensures
        hash == std::hash::DefaultHasher::spec_finish(
            seq![text.spec_bytes(), seq![0xffu8]]),
{
    let mut hasher = std::hash::DefaultHasher::new();
    let ghost h0 = hasher@;
    let bytes = text.as_bytes();
    hasher.write(bytes);
    let ghost h1 = hasher@;
    let mut end: Vec<u8> = Vec::new();
    end.push(0xff);
    hasher.write(end.as_slice());
    let ghost h2 = hasher@;
    proof {
        assert(h0 == Seq::<Seq<u8>>::empty());
        assert(h1 == h0.push(bytes@));
        assert(h2 == h1.push(end@));
        assert(end@ =~= seq![0xffu8]);
        assert(bytes@ == text.spec_bytes());
        assert(h2 =~~= seq![text.spec_bytes(), seq![0xffu8]]);
    }
    hasher.finish()
}

} // verus!
