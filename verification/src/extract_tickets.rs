//! The ticket extractor: finds ticket identifiers in the text of pull
//! requests and emits each one once, in the order of discovery.

use vstd::prelude::*;
use crate::seen::{emit_fresh, fresh, lemma_fresh_concat, members, SeenSet};
use crate::text::{
    char_is_digit, char_is_upper, count_digits, digit_run, is_digit, is_upper, lemma_digit_run,
    substring, to_chars, trim, trimmed, views,
};
use crate::update_tickets::is_ticket_id;

verus! {

/// Length of the ticket identifier that begins at index `i` of `s`: three
/// upper-case letters, a hyphen and as many digits as follow, at least one.
/// Zero where none begins there.
pub open spec fn ticket_len_at(s: Seq<char>, i: int) -> nat {
    if 0 <= i && i + 5 <= s.len() && is_upper(s[i]) && is_upper(s[i + 1]) && is_upper(s[i + 2])
        && s[i + 3] == '-' && is_digit(s[i + 4]) {
        4 + digit_run(s, i + 4)
    } else {
        0
    }
}

/// The ticket identifiers in `s` from index `i` on: the leftmost first,
/// each as long as it can be, none overlapping another.
pub open spec fn tickets_from(s: Seq<char>, i: int) -> Seq<Seq<char>>
    decreases s.len() - i,
{
    if i < 0 || i >= s.len() {
        Seq::empty()
    } else if ticket_len_at(s, i) > 0 {
        proof {
            lemma_digit_run(s, i + 4);
        }
        seq![s.subrange(i, i + ticket_len_at(s, i))] + tickets_from(s, i + ticket_len_at(s, i))
    } else {
        tickets_from(s, i + 1)
    }
}

/// The ticket identifiers in `s`.
pub open spec fn tickets_in(s: Seq<char>) -> Seq<Seq<char>> {
    tickets_from(s, 0)
}

/// The ticket identifiers in the texts of `texts`, text after text.
pub open spec fn tickets_in_all(texts: Seq<Seq<char>>) -> Seq<Seq<char>>
    decreases texts.len(),
{
    if texts.len() == 0 {
        Seq::empty()
    } else {
        tickets_in_all(texts.drop_last()) + tickets_in(texts.last())
    }
}

/// Whatever the text, every ticket identifier found in it has the form
/// that the ticket updater accepts.
pub proof fn law_found_tickets_are_valid(s: Seq<char>, i: int, k: int)
    requires
        0 <= i,
        0 <= k < tickets_from(s, i).len(),
    ensures
        is_ticket_id(tickets_from(s, i)[k]),
    decreases s.len() - i,
{
    if i < s.len() {
        let n = ticket_len_at(s, i);
        if n > 0 {
            lemma_digit_run(s, i + 4);
            if k == 0 {
                let id = s.subrange(i, i + n);
                assert(tickets_from(s, i)[0] == id);
                assert forall|j: int| 4 <= j < id.len() implies is_digit(#[trigger] id[j]) by {
                    assert(id[j] == s[i + j]);
                }
            } else {
                assert(tickets_from(s, i)[k] == tickets_from(s, i + n)[k - 1]);
                law_found_tickets_are_valid(s, i + n, k - 1);
            }
        } else {
            law_found_tickets_are_valid(s, i + 1, k);
        }
    }
}

/// Length of the ticket identifier that begins at index `i` of `s`, or zero.
pub fn ticket_len(s: &[char], i: usize) -> (n: usize)
    ensures
        n == ticket_len_at(s@, i as int),
        i + n <= s@.len() || n == 0,
{
    let len = s.len();
    if i >= len || len - i < 5 {
        return 0;
    }
    if !(char_is_upper(s[i]) && char_is_upper(s[i + 1]) && char_is_upper(s[i + 2]) && s[i + 3]
        == '-' && char_is_digit(s[i + 4])) {
        return 0;
    }
    let digits = count_digits(s, i + 4);
    4 + digits
}

/// The ticket identifiers in `text`: the leftmost first, each as long as it
/// can be, none overlapping another.
pub fn find_ticket_ids(text: &str) -> (ids: Vec<String>)
    ensures
        views(ids@) == tickets_in(text@),
{
    let chars = to_chars(text);
    let s = chars.as_slice();
    let len = s.len();
    let mut ids: Vec<String> = Vec::new();
    let mut i: usize = 0;
    assert(views(ids@) + tickets_from(text@, 0) =~= tickets_in(text@));
    while i < len
        invariant
            i <= len,
            len == s@.len(),
            s@ == text@,
            views(ids@) + tickets_from(text@, i as int) == tickets_in(text@),
        decreases len - i,
    {
        let n = ticket_len(s, i);
        if n > 0 {
            let ghost before = views(ids@);
            ids.push(substring(text, i, i + n));
            assert(views(ids@) =~= before + seq![text@.subrange(i as int, i + n)]);
            assert(views(ids@) + tickets_from(text@, i + n) =~= before + tickets_from(
                text@,
                i as int,
            ));
            i += n;
        } else {
            i += 1;
        }
    }
    assert(views(ids@) + tickets_from(text@, i as int) =~= views(ids@));
    ids
}

/// The text fields of a pull request in which tickets are looked for.
#[derive(Debug, Clone, PartialEq, Eq)]
pub struct PrMetadata {
    pub title: String,
    pub body: String,
    pub comments: String,
    pub commit_headlines: String,
    pub commit_bodies: String,
}

/// The fields of a pull request as one text, an empty line between them.
pub open spec fn pr_text(pr: PrMetadata) -> Seq<char> {
    pr.title@ + "\n\n"@ + pr.body@ + "\n\n"@ + pr.comments@ + "\n\n"@ + pr.commit_headlines@
        + "\n\n"@ + pr.commit_bodies@
}

/// The fields of a pull request as one text, an empty line between them.
pub fn get_pr_text(pr: &PrMetadata) -> (text: String)
    ensures
        text@ == pr_text(*pr),
{
    let mut text = pr.title.clone();
    text.append("\n\n");
    text.append(pr.body.as_str());
    text.append("\n\n");
    text.append(pr.comments.as_str());
    text.append("\n\n");
    text.append(pr.commit_headlines.as_str());
    text.append("\n\n");
    text.append(pr.commit_bodies.as_str());
    text
}

/// The pull-request number that a line of input holds: the line without
/// the white space around it, or `None` where nothing is left.
pub fn pr_number_of_line(line: &str) -> (number: Option<String>)
    ensures
        match number {
            Some(n) => n@ == trimmed(line@) && n@.len() > 0,
            None => trimmed(line@).len() == 0,
        },
{
    let number = trim(line);
    if number.as_str().unicode_len() == 0 {
        None
    } else {
        Some(number)
    }
}

/// Finds the ticket identifiers in `text` and returns, in order, those to
/// print: each one that was not in `seen` and stands nowhere earlier in
/// `text`. They are added to `seen`, and `any_output` is set if there are any.
pub fn find_and_output_tickets(text: &str, seen: &mut SeenSet, any_output: &mut bool) -> (out: Vec<
    String,
>)
    ensures
        views(out@) == fresh(old(seen)@, tickets_in(text@)),
        final(seen)@ == old(seen)@.union(members(views(out@))),
        *final(any_output) == (*old(any_output) || out@.len() > 0),
{
    let ids = find_ticket_ids(text);
    let out = emit_fresh(&ids, seen);
    if out.len() > 0 {
        *any_output = true;
    }
    out
}

/// What the stage prints and what it logs when it is done with one pull
/// request.
#[derive(Debug, Clone, PartialEq, Eq)]
pub struct PrReport {
    /// The ticket identifiers to print, in order.
    pub output: Vec<String>,
    /// The lines for the log.
    pub log: Vec<String>,
}

/// The line that the log gets for a pull request that could not be looked
/// up.
pub open spec fn lookup_failure_log(pr_number: Seq<char>, reason: Seq<char>) -> Seq<Seq<char>> {
    seq!["Failed to get PR #"@ + pr_number + ": "@ + reason]
}

/// Closes the work on one pull request. Where it was looked up, the
/// tickets found in it that are new are printed, as
/// `find_and_output_tickets` says. Where the lookup failed, the failure is
/// reported in the log and stops nothing: nothing is printed, and `seen`
/// and `any_output` stay as they were.
pub fn finish_pr(
    pr_number: &str,
    fetched: Result<PrMetadata, String>,
    seen: &mut SeenSet,
    any_output: &mut bool,
) -> (report: PrReport)
    ensures
        match fetched {
            Ok(pr) => {
                &&& views(report.output@) == fresh(old(seen)@, tickets_in(pr_text(pr)))
                &&& report.log@.len() == 0
                &&& final(seen)@ == old(seen)@.union(members(views(report.output@)))
                &&& *final(any_output) == (*old(any_output) || report.output@.len() > 0)
            },
            Err(reason) => {
                &&& report.output@.len() == 0
                &&& views(report.log@) == lookup_failure_log(pr_number@, reason@)
                &&& final(seen)@ == old(seen)@
                &&& *final(any_output) == *old(any_output)
            },
        },
{
    match fetched {
        Ok(pr) => {
            let text = get_pr_text(&pr);
            let output = find_and_output_tickets(text.as_str(), seen, any_output);
            PrReport { output, log: Vec::new() }
        },
        Err(reason) => {
            let mut line = "Failed to get PR #".to_owned();
            line.append(pr_number);
            line.append(": ");
            line.append(reason.as_str());
            let mut log: Vec<String> = Vec::new();
            log.push(line);
            assert(views(log@) =~= lookup_failure_log(pr_number@, reason@));
            PrReport { output: Vec::new(), log }
        },
    }
}

/// The ticket identifiers that the stage prints when it is given the texts
/// of these pull requests in this order: each identifier once, in the
/// order of discovery.
pub fn run(pr_texts: &Vec<String>) -> (out: Vec<String>)
    ensures
        views(out@) == fresh(Set::empty(), tickets_in_all(views(pr_texts@))),
{
    let ghost texts = views(pr_texts@);
    let mut seen = SeenSet::new();
    let mut any_output = false;
    let mut out: Vec<String> = Vec::new();
    let mut k: usize = 0;
    assert(texts.take(0) =~= Seq::<Seq<char>>::empty());
    assert(seen@ =~= members(views(out@)));
    while k < pr_texts.len()
        invariant
            k <= pr_texts.len(),
            texts == views(pr_texts@),
            seen@ == members(views(out@)),
            views(out@) == fresh(Set::empty(), tickets_in_all(texts.take(k as int))),
        decreases pr_texts.len() - k,
    {
        let ghost before = views(out@);
        let mut found = find_and_output_tickets(pr_texts[k].as_str(), &mut seen, &mut any_output);
        proof {
            let done = tickets_in_all(texts.take(k as int));
            let next = texts.take(k + 1);
            assert(next.drop_last() =~= texts.take(k as int));
            assert(next.last() == pr_texts@[k as int]@);
            lemma_fresh_concat(Set::empty(), done, tickets_in(pr_texts@[k as int]@));
            assert(Set::<Seq<char>>::empty().union(members(before)) =~= members(before));
        }
        let ghost added = views(found@);
        out.append(&mut found);
        assert(views(out@) =~= before + added);
        assert(seen@ =~= members(views(out@))) by {
            let now = views(out@);
            assert forall|x: Seq<char>| now.contains(x) <==> (before.contains(x) || added.contains(
                x,
            )) by {
                if now.contains(x) {
                    let j = choose|j: int| 0 <= j < now.len() && now[j] == x;
                    if j < before.len() {
                        assert(before[j] == x);
                    } else {
                        assert(added[j - before.len()] == x);
                    }
                }
                if before.contains(x) {
                    let j = choose|j: int| 0 <= j < before.len() && before[j] == x;
                    assert(now[j] == x);
                }
                if added.contains(x) {
                    let j = choose|j: int| 0 <= j < added.len() && added[j] == x;
                    assert(now[before.len() + j] == x);
                }
            }
        }
        k += 1;
    }
    assert(texts.take(pr_texts.len() as int) =~= texts);
    out
}

} // verus!
