//! What the screens say: the words each screen picks for the state it
//! draws — the key step's heading, the bar's labels, the node's and the
//! account's menus, a notification's line. Drawing them is the shell's.

use vstd::prelude::*;

use crate::names::{prettified, tab_label, RailRow};
use crate::text::{upper, upper_of, chars_of, decimal, push_decimal, push_signed, push_str, signed_decimal, string_of};

verus! {

/// The key step's words: its label, its heading, and the line under it.
pub open spec fn unlock_words(network: Seq<char>, key_exists: bool, locked: bool, failed: bool) -> (Seq<char>, Seq<char>, Option<Seq<char>>) {
    if key_exists {
        (network + " · locked"@, "Sign in to "@ + network,
            Some("This device's key still has a password from before. Type it once; the system keeps the key after that."@))
    } else if locked {
        (network + " · locked"@, "Sign in to "@ + network, None)
    } else if failed {
        ("[02 / 04] Key"@, "The key didn't open"@, Some("The system holds this device's key and didn't hand it over."@))
    } else {
        ("[02 / 04] Key"@, "Opening this device's key…"@,
            Some("It signs what you write, and the system keeps it: no password, nothing to write down."@))
    }
}

fn text_of(parts: &Vec<char>) -> (out: String)
    ensures
        out@ == parts@,
{
    string_of(parts)
}

/// The key step's words for a key that is password-locked, locked on
/// purpose, failed to open, or opening.
pub fn unlock_copy(network: &str, key_exists: bool, locked: bool, failed: bool) -> (words: (String, String, Option<&'static str>))
    ensures
        ({
            let expected = unlock_words(network@, key_exists, locked, failed);
            &&& words.0@ == expected.0
            &&& words.1@ == expected.1
            &&& match expected.2 {
                Some(lead) => words.2 matches Some(said) && said@ == lead,
                None => words.2 is None,
            }
        }),
{
    if key_exists || locked {
        let mut label = chars_of(network);
        push_str(&mut label, " · locked");
        let mut heading: Vec<char> = Vec::new();
        push_str(&mut heading, "Sign in to ");
        push_str(&mut heading, network);
        let lead = if key_exists {
            Some("This device's key still has a password from before. Type it once; the system keeps the key after that.")
        } else {
            None
        };
        (text_of(&label), text_of(&heading), lead)
    } else if failed {
        (String::from_str("[02 / 04] Key"), String::from_str("The key didn't open"),
            Some("The system holds this device's key and didn't hand it over."))
    } else {
        (String::from_str("[02 / 04] Key"), String::from_str("Opening this device's key…"),
            Some("It signs what you write, and the system keeps it: no password, nothing to write down."))
    }
}

/// The note on a network that shares its name with another chain.
pub fn other_chain_note(network: &str) -> (said: String)
    ensures
        said@ == "This is a different network also called "@ + network@ + ". It gets its own key on this device."@,
{
    let mut out: Vec<char> = Vec::new();
    push_str(&mut out, "This is a different network also called ");
    push_str(&mut out, network);
    push_str(&mut out, ". It gets its own key on this device.");
    text_of(&out)
}

/// A rail tab's name as read out: its label, and its note after a dot.
pub fn tab_name(row: &RailRow) -> (name: String)
    ensures
        ({
            let shown = if row.note is Some { prettified(row.label@) } else { row.label@ };
            match row.note {
                Some(note) => name@ == shown + " · "@ + note@,
                None => name@ == shown,
            }
        }),
{
    let shown = tab_label(row);
    match row.note {
        Some(note) => {
            let mut out = chars_of(shown.as_str());
            push_str(&mut out, " · ");
            push_str(&mut out, note);
            text_of(&out)
        },
        None => shown,
    }
}

/// A tab's label on a narrow bar: its first character.
pub fn narrow_tab(shown: &str) -> (out: String)
    ensures
        shown@.len() == 0 ==> out@.len() == 0,
        shown@.len() > 0 ==> out@ == seq![shown@[0]],
{
    let mut out: Vec<char> = Vec::new();
    if shown.unicode_len() > 0 {
        out.push(shown.get_char(0));
    }
    assert(out@.len() == 0 || out@ =~= seq![shown@[0]]);
    text_of(&out)
}

/// The bell's name: "Notifications", with the unread count if any.
pub fn bell_label(unread: u64) -> (said: String)
    ensures
        unread == 0 ==> said@ == "Notifications"@,
        unread > 0 ==> said@ == "Notifications, "@ + decimal(unread as nat) + " unread"@,
{
    if unread == 0 {
        return String::from_str("Notifications");
    }
    let mut out: Vec<char> = Vec::new();
    push_str(&mut out, "Notifications, ");
    push_decimal(&mut out, unread);
    push_str(&mut out, " unread");
    text_of(&out)
}

/// The bell's count: up to 99, then "99+".
pub fn bell_count(unread: u64) -> (said: String)
    ensures
        unread <= 99 ==> said@ == decimal(unread as nat),
        unread > 99 ==> said@ == "99+"@,
{
    if unread > 99 {
        return String::from_str("99+");
    }
    let mut out: Vec<char> = Vec::new();
    push_decimal(&mut out, unread);
    assert(out@ =~= decimal(unread as nat));
    text_of(&out)
}

/// The bar's node item: whether its dot breathes, and what it says.
pub fn node_pulse(connecting: bool, reconnecting: bool, height: i64) -> (pulse: (bool, String))
    ensures
        connecting ==> pulse.0 && pulse.1@ == "Node: switching"@,
        !connecting && reconnecting ==> !pulse.0 && pulse.1@ == "Node: not answering"@,
        !connecting && !reconnecting ==> pulse.0 && pulse.1@ == "Node: in sync, block "@ + signed_decimal(height as int),
{
    if connecting {
        return (true, String::from_str("Node: switching"));
    }
    if reconnecting {
        return (false, String::from_str("Node: not answering"));
    }
    let mut out: Vec<char> = Vec::new();
    push_str(&mut out, "Node: in sync, block ");
    push_signed(&mut out, height);
    (true, text_of(&out))
}

/// How long ago the last block came.
pub fn block_age_text(age: i64) -> (said: String)
    ensures
        age <= 0 ==> said@ == "just now"@,
        age > 0 ==> said@ == decimal(age as nat) + " s ago"@,
{
    if age <= 0 {
        return String::from_str("just now");
    }
    let mut out: Vec<char> = Vec::new();
    push_decimal(&mut out, age as u64);
    push_str(&mut out, " s ago");
    text_of(&out)
}

/// How far into its epoch the chain is: blocks in, of the epoch's length
/// (none of none for a chain without epochs).
pub fn epoch_progress(height: u64, epoch_length: u64) -> (progress: (u64, u64))
    ensures
        epoch_length == 0 ==> progress == (0u64, 0u64),
        epoch_length > 0 ==> progress == ((height % epoch_length) as u64, epoch_length),
{
    if epoch_length == 0 { (0, 0) } else { (height % epoch_length, epoch_length) }
}

/// The node menu's epoch row: "<epoch> · <in> / <of>".
pub fn epoch_text(epoch: u64, into: u64, of: u64) -> (said: String)
    ensures
        said@ == decimal(epoch as nat) + " · "@ + decimal(into as nat) + " / "@ + decimal(of as nat),
{
    let mut out: Vec<char> = Vec::new();
    push_decimal(&mut out, epoch);
    push_str(&mut out, " · ");
    push_decimal(&mut out, into);
    push_str(&mut out, " / ");
    push_decimal(&mut out, of);
    text_of(&out)
}

/// A contract's version as shown: "v<n>".
pub fn contract_text(contract: u64) -> (said: String)
    ensures
        said@ == "v"@ + decimal(contract as nat),
{
    let mut out: Vec<char> = Vec::new();
    push_str(&mut out, "v");
    push_decimal(&mut out, contract);
    text_of(&out)
}

/// The account menu's heading: the account's name and number, or
/// "Signed in" with neither; and the line under it.
pub fn account_heading(account: &Option<Option<(u64, String)>>, network: &str) -> (heading: (String, Option<u64>, String))
    ensures
        match account {
            Some(Some((number, name))) => {
                &&& heading.0@ == name@
                &&& heading.1 == Some(*number)
                &&& heading.2@ == "account "@ + decimal(*number as nat) + " · "@ + network@
            },
            _ => {
                &&& heading.0@ == "Signed in"@
                &&& heading.1 is None
                &&& heading.2@ == network@
            },
        },
{
    match account {
        Some(Some((number, name))) => {
            let mut detail: Vec<char> = Vec::new();
            push_str(&mut detail, "account ");
            push_decimal(&mut detail, *number);
            push_str(&mut detail, " · ");
            push_str(&mut detail, network);
            (name.clone(), Some(*number), text_of(&detail))
        },
        _ => (String::from_str("Signed in"), None, String::from_str(network)),
    }
}

/// A notification's source: its view, and its tag after a dot.
pub fn notification_source(module: &str, tag: &str) -> (said: String)
    ensures
        tag@.len() == 0 ==> said@ == module@,
        tag@.len() > 0 ==> said@ == module@ + " · "@ + tag@,
{
    if tag.unicode_len() == 0 {
        return String::from_str(module);
    }
    let mut out = chars_of(module);
    push_str(&mut out, " · ");
    push_str(&mut out, tag);
    text_of(&out)
}

/// A notification as read out: "Unread. " before one not read yet, its
/// title, and its body.
pub fn notification_said(read: bool, title: &str, body: &str) -> (said: String)
    ensures
        said@ == (if read { Seq::<char>::empty() } else { "Unread. "@ }) + title@ + ": "@ + body@,
{
    let mut out: Vec<char> = Vec::new();
    if !read {
        push_str(&mut out, "Unread. ");
    }
    proof {
        reveal_strlit("");
    }
    push_str(&mut out, title);
    push_str(&mut out, ": ");
    push_str(&mut out, body);
    text_of(&out)
}

/// The recovery check's prompt, naming the asked words from 1.
pub fn quiz_prompt(asked: [usize; 3]) -> (said: String)
    requires
        asked[0] < usize::MAX,
        asked[1] < usize::MAX,
        asked[2] < usize::MAX,
    ensures
        said@ == "Type words "@ + decimal(asked[0] as nat + 1) + ", "@ + decimal(asked[1] as nat + 1)
            + " and "@ + decimal(asked[2] as nat + 1) + " from your paper."@,
{
    let mut out: Vec<char> = Vec::new();
    push_str(&mut out, "Type words ");
    push_decimal(&mut out, (asked[0] + 1) as u64);
    push_str(&mut out, ", ");
    push_decimal(&mut out, (asked[1] + 1) as u64);
    push_str(&mut out, " and ");
    push_decimal(&mut out, (asked[2] + 1) as u64);
    push_str(&mut out, " from your paper.");
    text_of(&out)
}

/// A recovery check field's name: "Word <n>", counting from 1.
pub fn word_label(nth: usize) -> (said: String)
    requires
        nth < usize::MAX,
    ensures
        said@ == "Word "@ + decimal(nth as nat + 1),
{
    let mut out: Vec<char> = Vec::new();
    push_str(&mut out, "Word ");
    push_decimal(&mut out, (nth + 1) as u64);
    text_of(&out)
}

/// A view's row in the notification settings: what it asked this week,
/// or that it never asked.
pub fn week_hint(chosen: bool, week: u64) -> (said: String)
    ensures
        !chosen && week == 0 ==> said@ == "Has not asked"@,
        chosen || week > 0 ==> said@ == decimal(week as nat) + " this week"@,
{
    if !chosen && week == 0 {
        return String::from_str("Has not asked");
    }
    let mut out: Vec<char> = Vec::new();
    push_decimal(&mut out, week);
    push_str(&mut out, " this week");
    text_of(&out)
}

/// The bar over a desk whose node went quiet.
pub fn not_answering(network: &str) -> (said: String)
    ensures
        said@ == network@ + " isn't answering. What you write stays here."@,
{
    let mut out = chars_of(network);
    push_str(&mut out, " isn't answering. What you write stays here.");
    text_of(&out)
}

/// A node's row in the network menu: its label, marked when current.
pub fn network_row_name(label: &str, current: bool) -> (said: String)
    ensures
        current ==> said@ == label@ + " (current)"@,
        !current ==> said@ == label@,
{
    if !current {
        return String::from_str(label);
    }
    let mut out = chars_of(label);
    push_str(&mut out, " (current)");
    text_of(&out)
}

/// What the connect screen shows under its field.
pub enum Below {
    /// A failure: the address refused, or the last try.
    Alert(String),
    /// A try in flight: its status.
    Status(String),
    Nothing,
}

/// Under the connect field: the address refusal (about what is typed
/// now), else the last try's failure; with neither, the status of a try
/// in flight, which alone is worth reading.
pub fn connect_below(endpoint_error: &str, error: &str, connecting: bool, status: &str) -> (below: Below)
    ensures
        endpoint_error@.len() > 0 ==> (below matches Below::Alert(said) && said@ == endpoint_error@),
        endpoint_error@.len() == 0 && error@.len() > 0 ==> (below matches Below::Alert(said) && said@ == error@),
        endpoint_error@.len() == 0 && error@.len() == 0 && connecting ==> (below matches Below::Status(said) && said@ == status@),
        endpoint_error@.len() == 0 && error@.len() == 0 && !connecting ==> below is Nothing,
{
    if endpoint_error.unicode_len() > 0 {
        Below::Alert(String::from_str(endpoint_error))
    } else if error.unicode_len() > 0 {
        Below::Alert(String::from_str(error))
    } else if connecting {
        Below::Status(String::from_str(status))
    } else {
        Below::Nothing
    }
}

/// The connect screen's caption under its drawing.
pub fn connect_caption(any_recent: bool) -> (said: &'static str)
    ensures
        any_recent ==> said@ == "A node, drawn in characters."@,
        !any_recent ==> said@ == "No network yet."@,
{
    if any_recent { "A node, drawn in characters." } else { "No network yet." }
}

/// The notification centre's header: how many rows are unread.
pub fn unread_line(unread: u64) -> (said: String)
    ensures
        said@ == decimal(unread as nat) + " unread"@,
{
    let mut out: Vec<char> = Vec::new();
    push_decimal(&mut out, unread);
    push_str(&mut out, " unread");
    text_of(&out)
}

/// A notification's badge letter: its title's first character, in upper
/// case; nothing for an empty title.
pub fn title_initial(title: &str) -> (said: String)
    ensures
        title@.len() == 0 ==> said@.len() == 0,
        title@.len() > 0 ==> said@ == upper_of(title@[0]) && said@.len() >= 1,
{
    if title.unicode_len() == 0 {
        return String::new();
    }
    let letters = upper(title.get_char(0));
    text_of(&letters)
}

/// Where the notification rows (newest first, posted at `ats`) start a
/// section: the row's place, and whether its section is Today (posted at
/// or after `midnight`) or Earlier.
pub open spec fn section_heads(ats: Seq<i64>, midnight: i64) -> Seq<(usize, bool)>
    decreases ats.len(),
{
    if ats.len() == 0 {
        seq![]
    } else {
        let before = section_heads(ats.drop_last(), midnight);
        let last = ats.len() - 1;
        let today = ats[last] >= midnight;
        if last == 0 || (ats[last - 1] >= midnight) != today {
            before.push((last as usize, today))
        } else {
            before
        }
    }
}

/// The sections of the notification centre's rows: see [`section_heads`].
pub fn sections(ats: &[i64], midnight: i64) -> (heads: Vec<(usize, bool)>)
    ensures
        heads@ == section_heads(ats@, midnight),
{
    let mut heads: Vec<(usize, bool)> = Vec::new();
    let n = ats.len();
    for i in 0..n
        invariant
            n == ats@.len(),
            heads@ == section_heads(ats@.take(i as int), midnight),
    {
        let ghost part = ats@.take(i + 1);
        assert(part.drop_last() =~= ats@.take(i as int));
        assert(part[i as int] == ats@[i as int]);
        let today = ats[i] >= midnight;
        if i == 0 || (ats[i - 1] >= midnight) != today {
            heads.push((i, today));
        }
    }
    assert(ats@.take(n as int) =~= ats@);
    heads
}

/// A section's heading.
pub fn section_title(today: bool) -> (said: &'static str)
    ensures
        today ==> said@ == "Today"@,
        !today ==> said@ == "Earlier"@,
{
    if today { "Today" } else { "Earlier" }
}

} // verus!
