use vstd::prelude::*;
use vstd::string::StrSliceExecFns;
use vstd::string::StringExecFns;
use crate::store::{Error, Status, Task, TaskModel, TodoList, removed};

verus! {

/// The longest description a task may have, counted in characters.
pub const MAX_DESCRIPTION_LEN: usize = 20;

/// The characters of `s` in lower case, as `str::to_lowercase` gives them.
pub uninterp spec fn lower_of(s: Seq<char>) -> Seq<char>;

/// The characters of `s` without leading and trailing whitespace, as
/// `str::trim` gives them.
pub uninterp spec fn trim_of(s: Seq<char>) -> Seq<char>;

/// Relies on `str::to_lowercase`: the lower-case form depends on the
/// characters alone.
#[verifier::external_body]
fn lowercase(s: &str) -> (r: String)
    ensures
        r@ == lower_of(s@),
{
    s.to_lowercase()
}

/// Relies on `str::trim`: the trimmed form depends on the characters alone.
#[verifier::external_body]
fn trim<'a>(s: &'a str) -> (r: &'a str)
    ensures
        r@ == trim_of(s@),
{
    s.trim()
}

pub open spec fn is_digit(c: char) -> bool {
    '0' <= c && c <= '9'
}

/// The number that a sequence of decimal digits writes.
pub open spec fn digits_value(s: Seq<char>) -> int
    decreases s.len(),
{
    if s.len() == 0 {
        0
    } else {
        10 * digits_value(s.drop_last()) + (s.last() as int - '0' as int)
    }
}

/// The digits of an index token, after an optional leading `+`.
pub open spec fn index_digits(s: Seq<char>) -> Seq<char> {
    if s.len() > 0 && s[0] == '+' {
        s.drop_first()
    } else {
        s
    }
}

/// The index a token writes: an optional `+` and at least one decimal digit,
/// with a value that fits in `usize`. Anything else writes no index.
pub open spec fn index_value(s: Seq<char>) -> Option<int> {
    let d = index_digits(s);
    if d.len() > 0 && (forall|i: int| 0 <= i < d.len() ==> is_digit(#[trigger] d[i]))
        && digits_value(d) <= usize::MAX {
        Some(digits_value(d))
    } else {
        None
    }
}

/// Relies on `<usize as FromStr>::from_str`: an optional `+` followed by
/// decimal digits, rejected when empty or when the value overflows.
#[verifier::external_body]
fn parse_index(s: &str) -> (r: Option<usize>)
    ensures
        r is Some <==> index_value(s@) is Some,
        r is Some ==> index_value(s@) == Some(r->0 as int),
{
    s.parse::<usize>().ok()
}

/// The words joined with a single space between neighbours.
pub open spec fn join_words(words: Seq<Seq<char>>) -> Seq<char>
    decreases words.len(),
{
    if words.len() == 0 {
        Seq::empty()
    } else if words.len() == 1 {
        words[0]
    } else {
        join_words(words.drop_last()) + seq![' '] + words.last()
    }
}

/// The characters of each token.
pub open spec fn token_texts(args: Seq<&str>) -> Seq<Seq<char>> {
    args.map_values(|a: &str| a@)
}

/// The description an `add` command carries: the tokens strictly between the
/// command name and the status, joined by single spaces.
pub open spec fn add_description(args: Seq<Seq<char>>) -> Seq<char> {
    join_words(args.subrange(1, args.len() - 1))
}

/// A trimmed description that stands for no text: empty, or a pair of
/// double or single quotes.
pub open spec fn is_blank(trimmed: Seq<char>) -> bool {
    trimmed.len() == 0 || trimmed == seq!['"', '"'] || trimmed == seq!['\'', '\'']
}

/// A description is accepted when its trimmed form is not blank and its
/// untrimmed form has at most `MAX_DESCRIPTION_LEN` characters.
pub open spec fn description_ok(description: Seq<char>, trimmed: Seq<char>) -> bool {
    !is_blank(trimmed) && description.len() <= MAX_DESCRIPTION_LEN
}

/// The status a lower-case status token names.
pub open spec fn status_named(lowered: Seq<char>) -> Option<Status> {
    if lowered == seq!['p', 'e', 'n', 'd', 'i', 'n', 'g'] {
        Some(Status::Pending)
    } else if lowered == seq!['d', 'o', 'n', 'e'] {
        Some(Status::Done)
    } else {
        None
    }
}

/// Whether an `add` with this description, trimmed description and
/// lower-case status token is carried out.
pub open spec fn add_accepts(description: Seq<char>, trimmed: Seq<char>, lowered: Seq<char>) -> bool {
    description_ok(description, trimmed) && status_named(lowered) is Some
}

/// The error an `add` that is not carried out reports: a bad description
/// before a bad status.
pub open spec fn add_error_fits(
    description: Seq<char>,
    trimmed: Seq<char>,
    lowered: Seq<char>,
    e: Error,
) -> bool {
    if !description_ok(description, trimmed) {
        e is InvalidDescription
    } else {
        status_named(lowered) is None && e is InvalidStatus
    }
}

/// The list after an `add` with these parts.
pub open spec fn added(
    before: Seq<TaskModel>,
    description: Seq<char>,
    trimmed: Seq<char>,
    lowered: Seq<char>,
) -> Seq<TaskModel> {
    if add_accepts(description, trimmed, lowered) {
        before.push((description, status_named(lowered)->0))
    } else {
        before
    }
}

/// Whether two strings hold the same characters.
fn same_text(a: &str, b: &str) -> (r: bool)
    ensures
        r == (a@ == b@),
{
    let n = a.unicode_len();
    if n != b.unicode_len() {
        return false;
    }
    let mut i: usize = 0;
    while i < n
        invariant
            n == a@.len(),
            n == b@.len(),
            i <= n,
            forall|j: int| 0 <= j < i ==> a@[j] == b@[j],
        decreases n - i,
    {
        if a.get_char(i) != b.get_char(i) {
            return false;
        }
        i = i + 1;
    }
    assert(a@ =~= b@);
    true
}

/// The status that a lower-case status token names.
pub fn status_from_lowercase(lowered: &str) -> (r: Option<Status>)
    ensures
        r == status_named(lowered@),
{
    proof {
        reveal_strlit("pending");
        reveal_strlit("done");
    }
    if same_text(lowered, "pending") {
        assert("pending"@ =~= seq!['p', 'e', 'n', 'd', 'i', 'n', 'g']);
        Some(Status::Pending)
    } else if same_text(lowered, "done") {
        assert("done"@ =~= seq!['d', 'o', 'n', 'e']);
        assert(lowered@ != seq!['p', 'e', 'n', 'd', 'i', 'n', 'g']);
        Some(Status::Done)
    } else {
        assert("pending"@ =~= seq!['p', 'e', 'n', 'd', 'i', 'n', 'g']);
        assert("done"@ =~= seq!['d', 'o', 'n', 'e']);
        None
    }
}

/// The status a token names, whatever its case: `pending` or `done`.
pub fn parse_status(s: &str) -> (r: Option<Status>)
    ensures
        r == status_named(lower_of(s@)),
{
    let lowered = lowercase(s);
    status_from_lowercase(lowered.as_str())
}

/// Whether a trimmed description stands for no text.
pub fn is_blank_description(trimmed: &str) -> (r: bool)
    ensures
        r == is_blank(trimmed@),
{
    proof {
        reveal_strlit("\"\"");
        reveal_strlit("''");
    }
    assert("\"\""@ =~= seq!['"', '"']);
    assert("''"@ =~= seq!['\'', '\'']);
    trimmed.unicode_len() == 0 || same_text(trimmed, "\"\"") || same_text(trimmed, "''")
}

/// Decides an `add` from its description, the description trimmed, and the
/// status token in lower case.
pub fn check_add(description: &str, trimmed: &str, lowered: &str) -> (r: Result<Status, Error>)
    ensures
        r is Ok <==> add_accepts(description@, trimmed@, lowered@),
        r is Ok ==> r->Ok_0 == status_named(lowered@)->0,
        r is Err ==> add_error_fits(description@, trimmed@, lowered@, r->Err_0),
{
    if is_blank_description(trimmed) {
        return Err(Error::InvalidDescription(
            String::from_str("Description cannot be empty or whitespace."),
        ));
    }
    if description.unicode_len() > MAX_DESCRIPTION_LEN {
        return Err(Error::InvalidDescription(
            String::from_str("Description too long (max 20 characters)"),
        ));
    }
    match status_from_lowercase(lowered) {
        Some(status) => Ok(status),
        None => Err(Error::InvalidStatus(String::from_str("Use 'pending' or 'done'"))),
    }
}

/// The tokens `args[1..last]` joined by single spaces.
fn join_description(args: &[&str]) -> (r: String)
    requires
        args@.len() >= 2,
    ensures
        r@ == add_description(token_texts(args@)),
{
    let ghost texts = token_texts(args@);
    let last = args.len() - 1;
    let mut out = String::new();
    let mut i: usize = 1;
    proof {
        assert(texts.subrange(1, 1) =~= Seq::<Seq<char>>::empty());
    }
    while i < last
        invariant
            1 <= i <= last,
            last == args@.len() - 1,
            texts == token_texts(args@),
            out@ == join_words(texts.subrange(1, i as int)),
        decreases last - i,
    {
        let ghost prev = texts.subrange(1, i as int);
        let ghost next = texts.subrange(1, i as int + 1);
        assert(next.drop_last() =~= prev);
        assert(next.last() == args@[i as int]@);
        proof {
            reveal_strlit(" ");
        }
        assert(" "@ =~= seq![' ']);
        if i > 1 {
            out.append(" ");
            assert(out@ =~= join_words(prev) + seq![' ']);
        } else {
            assert(prev.len() == 0);
            assert(out@ =~= Seq::<char>::empty());
        }
        out.append(args[i]);
        proof {
            if i > 1 {
                assert(out@ =~= join_words(prev) + seq![' '] + next.last());
            } else {
                assert(out@ =~= next[0]);
            }
        }
        i = i + 1;
    }
    out
}

/// The `add` command: `args` is the command name, one or more description
/// words and a status token. On success the task is appended to `todo`;
/// on failure `todo` is left as it was.
pub fn handle_add_command(todo: &mut TodoList, args: &[&str]) -> (r: Result<(), Error>)
    ensures
        args@.len() < 3 ==> (r matches Err(Error::NotEnoughArgs(_)) && final(todo)@ == old(todo)@),
        args@.len() >= 3 ==> ({
            let d = add_description(token_texts(args@));
            let t = trim_of(d);
            let l = lower_of(args@.last()@);
            &&& final(todo)@ == added(old(todo)@, d, t, l)
            &&& (r is Ok <==> add_accepts(d, t, l))
            &&& (r is Err ==> add_error_fits(d, t, l, r->Err_0))
        }),
{
    if args.len() < 3 {
        return Err(Error::NotEnoughArgs(String::from_str("Usage: add <description> <status>")));
    }
    let description = join_description(args);
    let lowered = lowercase(args[args.len() - 1]);
    let checked = {
        let trimmed = trim(description.as_str());
        check_add(description.as_str(), trimmed, lowered.as_str())
    };
    match checked {
        Ok(status) => {
            todo.add_task(description, status);
            Ok(())
        },
        Err(e) => Err(e),
    }
}

/// The `remove` command: `args` is the command name and an index token. On
/// success the task at that index leaves `todo` and is returned.
pub fn handle_remove_command(todo: &mut TodoList, args: &[&str]) -> (r: Result<Task, Error>)
    ensures
        args@.len() != 2 ==> (r matches Err(Error::NotEnoughArgs(_)) && final(todo)@ == old(todo)@),
        args@.len() == 2 && index_value(args@[1]@) is None ==> (r matches Err(Error::InvalidIndex(_))
            && final(todo)@ == old(todo)@),
        args@.len() == 2 && index_value(args@[1]@) is Some ==> ({
            let i = index_value(args@[1]@)->0;
            &&& final(todo)@ == removed(old(todo)@, i)
            &&& i < old(todo)@.len() ==> r is Ok && r->Ok_0@ == old(todo)@[i]
            &&& i >= old(todo)@.len() ==> (r matches Err(Error::TaskNotFound(k)) && k == i)
        }),
{
    if args.len() != 2 {
        return Err(Error::NotEnoughArgs(String::from_str("Usage: remove <index>")));
    }
    match parse_index(args[1]) {
        Some(index) => todo.remove_task(index),
        None => Err(Error::InvalidIndex(String::from_str("Invalid index"))),
    }
}

} // verus!
