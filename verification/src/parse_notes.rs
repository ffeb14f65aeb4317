//! The note parser: finds references to pull requests in release notes and
//! emits each pull-request number once, in the order of discovery.
//!
//! A reference is `#` followed by digits, or the address of a pull request:
//! `https://github.com/`, an owner, `/`, a repository, `/pull/` and digits.

use vstd::prelude::*;
use crate::seen::{emit_fresh, fresh, lemma_fresh_concat, members, SeenSet};
use crate::text::{
    char_is_digit, count_digits, digit_run, is_digit, lemma_digit_run, matches_at, occurs_at,
    substring, to_chars, views,
};

verus! {

/// `c` may stand in the owner or the repository of an address: anything but
/// `/` and the end of a line.
pub open spec fn is_segment_char(c: char) -> bool {
    c != '/' && c != '\n'
}

/// Number of segment characters that stand in `s` from index `from` on
/// without a gap.
pub open spec fn segment_run(s: Seq<char>, from: int) -> nat
    decreases s.len() - from,
{
    if 0 <= from < s.len() && is_segment_char(s[from]) {
        1 + segment_run(s, from + 1)
    } else {
        0
    }
}

/// Length of the short reference that begins at index `i` of `s`: `#` and
/// as many digits as follow, at least one. Zero where none begins there.
pub open spec fn hash_ref_len(s: Seq<char>, i: int) -> nat {
    if 0 <= i && i + 1 < s.len() && s[i] == '#' && is_digit(s[i + 1]) {
        1 + digit_run(s, i + 1)
    } else {
        0
    }
}

/// Length of the pull-request address that begins at index `i` of `s`, with
/// as many digits at its end as follow. Zero where none begins there.
pub open spec fn pull_url_len(s: Seq<char>, i: int) -> nat {
    let host = "https://github.com/"@;
    let pull = "/pull/"@;
    let owner = i + host.len();
    let repo = owner + segment_run(s, owner) + 1;
    let number = repo + segment_run(s, repo) + pull.len();
    if occurs_at(s, host, i) && segment_run(s, owner) > 0 && repo <= s.len() && s[repo - 1] == '/'
        && segment_run(s, repo) > 0 && occurs_at(s, pull, repo + segment_run(s, repo))
        && digit_run(s, number) > 0 {
        (number + digit_run(s, number) - i) as nat
    } else {
        0
    }
}

/// Length of the reference to a pull request that begins at index `i` of
/// `s`, or zero.
pub open spec fn pr_ref_len_at(s: Seq<char>, i: int) -> nat {
    if hash_ref_len(s, i) > 0 {
        hash_ref_len(s, i)
    } else {
        pull_url_len(s, i)
    }
}

/// A reference that begins inside `s` ends inside `s`.
pub proof fn lemma_pr_ref_len(s: Seq<char>, i: int)
    requires
        0 <= i <= s.len(),
    ensures
        i + pr_ref_len_at(s, i) <= s.len(),
{
    if hash_ref_len(s, i) > 0 {
        lemma_digit_run(s, i + 1);
    } else if pull_url_len(s, i) > 0 {
        let owner = i + "https://github.com/"@.len();
        let repo = owner + segment_run(s, owner) + 1;
        let number = repo + segment_run(s, repo) + "/pull/"@.len();
        lemma_digit_run(s, number);
    }
}

/// The references to pull requests in `s` from index `i` on: the leftmost
/// first, each as long as it can be, none overlapping another.
pub open spec fn pr_refs_from(s: Seq<char>, i: int) -> Seq<Seq<char>>
    decreases s.len() - i,
{
    if i < 0 || i >= s.len() {
        Seq::empty()
    } else if pr_ref_len_at(s, i) > 0 {
        proof {
            lemma_pr_ref_len(s, i);
        }
        seq![s.subrange(i, i + pr_ref_len_at(s, i))] + pr_refs_from(s, i + pr_ref_len_at(s, i))
    } else {
        pr_refs_from(s, i + 1)
    }
}

/// Index after the last `/` of `s` before index `to`, or zero if there is none.
pub open spec fn after_last_slash(s: Seq<char>, to: int) -> int
    decreases to,
{
    if to <= 0 || to > s.len() {
        0
    } else if s[to - 1] == '/' {
        to
    } else {
        after_last_slash(s, to - 1)
    }
}

/// The pull-request number that a reference names: what follows its `#`
/// where it begins with one, else what follows its last `/`.
pub open spec fn pr_number(reference: Seq<char>) -> Seq<char> {
    if reference.len() > 0 && reference[0] == '#' {
        reference.subrange(1, reference.len() as int)
    } else {
        reference.subrange(
            after_last_slash(reference, reference.len() as int),
            reference.len() as int,
        )
    }
}

/// The pull-request numbers that the references `refs` name, in order.
pub open spec fn pr_numbers_of(refs: Seq<Seq<char>>) -> Seq<Seq<char>> {
    Seq::new(refs.len(), |k: int| pr_number(refs[k]))
}

/// The pull-request numbers referred to in `s`, in order, repeats included.
pub open spec fn pr_numbers_in(s: Seq<char>) -> Seq<Seq<char>> {
    pr_numbers_of(pr_refs_from(s, 0))
}

/// The pull-request numbers referred to in the texts of `texts`, text after
/// text.
pub open spec fn pr_numbers_in_all(texts: Seq<Seq<char>>) -> Seq<Seq<char>>
    decreases texts.len(),
{
    if texts.len() == 0 {
        Seq::empty()
    } else {
        pr_numbers_in_all(texts.drop_last()) + pr_numbers_in(texts.last())
    }
}

/// Where a `/` stands just before index `k` and none from `k` up to `to`,
/// `k` is the index after the last `/` before `to`.
pub proof fn lemma_after_last_slash(s: Seq<char>, k: int, to: int)
    requires
        0 < k <= to <= s.len(),
        s[k - 1] == '/',
        forall|j: int| k <= j < to ==> s[j] != '/',
    ensures
        after_last_slash(s, to) == k,
    decreases to - k,
{
    if k < to {
        lemma_after_last_slash(s, k, to - 1);
    }
}

/// A reference names a number: what `pr_number` takes from the reference
/// that begins at index `i` of `s` is the digits at its end, at least one.
pub proof fn lemma_reference_number(s: Seq<char>, i: int)
    requires
        0 <= i < s.len(),
        pr_ref_len_at(s, i) > 0,
    ensures
        pr_number(s.subrange(i, i + pr_ref_len_at(s, i))).len() > 0,
        forall|j: int|
            0 <= j < pr_number(s.subrange(i, i + pr_ref_len_at(s, i))).len() ==> is_digit(
                #[trigger] pr_number(s.subrange(i, i + pr_ref_len_at(s, i)))[j],
            ),
{
    lemma_pr_ref_len(s, i);
    let n = pr_ref_len_at(s, i);
    let reference = s.subrange(i, i + n);
    if hash_ref_len(s, i) > 0 {
        lemma_digit_run(s, i + 1);
        let number = pr_number(reference);
        assert(reference[0] == '#');
        assert forall|j: int| 0 <= j < number.len() implies is_digit(#[trigger] number[j]) by {
            assert(number[j] == s[i + 1 + j]);
        }
    } else {
        reveal_strlit("https://github.com/");
        reveal_strlit("/pull/");
        let host = "https://github.com/"@;
        let pull = "/pull/"@;
        let owner = i + host.len();
        let repo = owner + segment_run(s, owner) + 1;
        let slash = repo + segment_run(s, repo);
        let start = slash + pull.len();
        lemma_digit_run(s, start);
        let digits = digit_run(s, start);
        assert(s.subrange(i, i + host.len())[0] == 'h');
        assert(reference[0] == 'h');
        assert(s.subrange(slash, slash + pull.len())[5] == '/');
        assert(reference[start - i - 1] == '/');
        assert forall|j: int| start - i <= j < n implies reference[j] != '/' by {
            assert(reference[j] == s[i + j]);
            assert(is_digit(s[i + j]));
        }
        lemma_after_last_slash(reference, start - i, n as int);
        let number = pr_number(reference);
        assert(number.len() == digits);
        assert forall|j: int| 0 <= j < number.len() implies is_digit(#[trigger] number[j]) by {
            assert(number[j] == s[start + j]);
        }
    }
}

/// Whatever the text, every pull-request number found in it is made of
/// digits, at least one.
pub proof fn law_found_numbers_are_digits(s: Seq<char>, i: int, k: int)
    requires
        0 <= i,
        0 <= k < pr_refs_from(s, i).len(),
    ensures
        pr_number(pr_refs_from(s, i)[k]).len() > 0,
        forall|j: int|
            0 <= j < pr_number(pr_refs_from(s, i)[k]).len() ==> is_digit(
                #[trigger] pr_number(pr_refs_from(s, i)[k])[j],
            ),
    decreases s.len() - i,
{
    if i < s.len() {
        let n = pr_ref_len_at(s, i);
        if n > 0 {
            lemma_pr_ref_len(s, i);
            if k == 0 {
                assert(pr_refs_from(s, i)[0] == s.subrange(i, i + n));
                lemma_reference_number(s, i);
            } else {
                assert(pr_refs_from(s, i)[k] == pr_refs_from(s, i + n)[k - 1]);
                law_found_numbers_are_digits(s, i + n, k - 1);
            }
        } else {
            law_found_numbers_are_digits(s, i + 1, k);
        }
    }
}

/// Counts the segment characters that stand in `s` from index `from` on
/// without a gap.
pub fn count_segment(s: &[char], from: usize) -> (n: usize)
    ensures
        n == segment_run(s@, from as int),
        from <= s@.len() ==> from + n <= s@.len(),
{
    let len = s.len();
    if from >= len {
        return 0;
    }
    let mut i: usize = from;
    while i < len && s[i] != '/' && s[i] != '\n'
        invariant
            from <= i <= len,
            len == s@.len(),
            segment_run(s@, from as int) == (i - from) + segment_run(s@, i as int),
        decreases len - i,
    {
        i += 1;
    }
    i - from
}

/// Length of the pull-request address that begins at index `i` of `s`, or
/// zero. `host` and `pull` hold the two fixed parts of an address.
fn pull_url_len_exec(s: &[char], host: &[char], pull: &[char], i: usize) -> (n: usize)
    requires
        host@ == "https://github.com/"@,
        pull@ == "/pull/"@,
        i <= s@.len(),
    ensures
        n == pull_url_len(s@, i as int),
        i + n <= s@.len(),
{
    let len = s.len();
    if !matches_at(s, host, i, false) {
        return 0;
    }
    let owner = i + host.len();
    let owner_len = count_segment(s, owner);
    if owner_len == 0 || owner + owner_len >= len || s[owner + owner_len] != '/' {
        return 0;
    }
    let repo = owner + owner_len + 1;
    let repo_len = count_segment(s, repo);
    if repo_len == 0 {
        return 0;
    }
    if !matches_at(s, pull, repo + repo_len, false) {
        return 0;
    }
    let number = repo + repo_len + pull.len();
    let digits = count_digits(s, number);
    if digits == 0 {
        return 0;
    }
    number + digits - i
}

/// Length of the reference to a pull request that begins at index `i` of
/// `s`, or zero. `host` and `pull` hold the two fixed parts of an address.
fn pr_ref_len(s: &[char], host: &[char], pull: &[char], i: usize) -> (n: usize)
    requires
        host@ == "https://github.com/"@,
        pull@ == "/pull/"@,
        i < s@.len(),
    ensures
        n == pr_ref_len_at(s@, i as int),
        i + n <= s@.len(),
{
    if s[i] == '#' {
        if i + 1 < s.len() && char_is_digit(s[i + 1]) {
            let digits = count_digits(s, i + 1);
            return 1 + digits;
        }
        proof {
            reveal_strlit("https://github.com/");
            if occurs_at(s@, "https://github.com/"@, i as int) {
                assert(s@.subrange(i as int, i + 19)[0] == 'h');
            }
        }
        return 0;
    }
    pull_url_len_exec(s, host, pull, i)
}

/// The references to pull requests in `text`: the leftmost first, each as
/// long as it can be, none overlapping another.
pub fn find_pr_references(text: &str) -> (refs: Vec<String>)
    ensures
        views(refs@) == pr_refs_from(text@, 0),
{
    let chars = to_chars(text);
    let s = chars.as_slice();
    let host_chars = to_chars("https://github.com/");
    let pull_chars = to_chars("/pull/");
    let host = host_chars.as_slice();
    let pull = pull_chars.as_slice();
    let len = s.len();
    let mut refs: Vec<String> = Vec::new();
    let mut i: usize = 0;
    assert(views(refs@) + pr_refs_from(text@, 0) =~= pr_refs_from(text@, 0));
    while i < len
        invariant
            i <= len,
            len == s@.len(),
            s@ == text@,
            host@ == "https://github.com/"@,
            pull@ == "/pull/"@,
            views(refs@) + pr_refs_from(text@, i as int) == pr_refs_from(text@, 0),
        decreases len - i,
    {
        let n = pr_ref_len(s, host, pull, i);
        if n > 0 {
            let ghost before = views(refs@);
            refs.push(substring(text, i, i + n));
            assert(views(refs@) =~= before + seq![text@.subrange(i as int, i + n)]);
            assert(views(refs@) + pr_refs_from(text@, i + n) =~= before + pr_refs_from(
                text@,
                i as int,
            ));
            i += n;
        } else {
            i += 1;
        }
    }
    assert(views(refs@) + pr_refs_from(text@, i as int) =~= views(refs@));
    refs
}

/// The pull-request number that `reference` names: what follows its `#`
/// where it begins with one, else what follows its last `/`.
pub fn normalize_pr_reference(reference: &str) -> (number: String)
    ensures
        number@ == pr_number(reference@),
{
    let chars = to_chars(reference);
    let s = chars.as_slice();
    let len = s.len();
    if len > 0 && s[0] == '#' {
        return substring(reference, 1, len);
    }
    let mut start: usize = len;
    while start > 0 && s[start - 1] != '/'
        invariant
            start <= len,
            len == s@.len(),
            after_last_slash(s@, len as int) == after_last_slash(s@, start as int),
        decreases start,
    {
        start -= 1;
    }
    substring(reference, start, len)
}

/// The pull-request numbers referred to in `text`, in order, repeats
/// included.
pub fn find_pr_numbers(text: &str) -> (numbers: Vec<String>)
    ensures
        views(numbers@) == pr_numbers_in(text@),
{
    let refs = find_pr_references(text);
    let mut numbers: Vec<String> = Vec::new();
    let mut k: usize = 0;
    while k < refs.len()
        invariant
            k <= refs.len(),
            numbers@.len() == k,
            forall|j: int| 0 <= j < k ==> (#[trigger] numbers@[j])@ == pr_number(refs@[j]@),
        decreases refs.len() - k,
    {
        numbers.push(normalize_pr_reference(refs[k].as_str()));
        k += 1;
    }
    assert(views(numbers@) =~= pr_numbers_of(views(refs@)));
    numbers
}

/// Reads one piece of the release notes and returns, in order, the
/// pull-request numbers to print: each one referred to in `chunk` that was
/// not in `seen` and stands nowhere earlier in `chunk`. They are added to
/// `seen`.
pub fn stream_pr_numbers_from_reader(chunk: &str, seen: &mut SeenSet) -> (out: Vec<String>)
    ensures
        views(out@) == fresh(old(seen)@, pr_numbers_in(chunk@)),
        final(seen)@ == old(seen)@.union(members(views(out@))),
{
    let numbers = find_pr_numbers(chunk);
    emit_fresh(&numbers, seen)
}

/// How the stage ends when the notes of the release `tag` were fetched for
/// it: with whether anything was printed where the fetch succeeded, and
/// with a failure that names the release where it did not, whatever was
/// printed before.
pub fn finish_release(tag: &str, fetch_ok: bool, any_output: bool) -> (r: Result<bool, String>)
    ensures
        match r {
            Ok(printed) => fetch_ok && printed == any_output,
            Err(e) => !fetch_ok && e@ == "Failed to get release notes for tag "@ + tag@,
        },
{
    if fetch_ok {
        Ok(any_output)
    } else {
        let mut message = "Failed to get release notes for tag ".to_owned();
        message.append(tag);
        Err(message)
    }
}

/// The pull-request numbers that the stage prints when it is given these
/// pieces of release notes in this order: each number once, in the order
/// of discovery.
pub fn run(chunks: &Vec<String>) -> (out: Vec<String>)
    ensures
        views(out@) == fresh(Set::empty(), pr_numbers_in_all(views(chunks@))),
{
    let ghost texts = views(chunks@);
    let mut seen = SeenSet::new();
    let mut out: Vec<String> = Vec::new();
    let mut k: usize = 0;
    assert(texts.take(0) =~= Seq::<Seq<char>>::empty());
    assert(seen@ =~= members(views(out@)));
    while k < chunks.len()
        invariant
            k <= chunks.len(),
            texts == views(chunks@),
            seen@ == members(views(out@)),
            views(out@) == fresh(Set::empty(), pr_numbers_in_all(texts.take(k as int))),
        decreases chunks.len() - k,
    {
        let ghost before = views(out@);
        let mut found = stream_pr_numbers_from_reader(chunks[k].as_str(), &mut seen);
        proof {
            let done = pr_numbers_in_all(texts.take(k as int));
            let next = texts.take(k + 1);
            assert(next.drop_last() =~= texts.take(k as int));
            assert(next.last() == chunks@[k as int]@);
            lemma_fresh_concat(Set::empty(), done, pr_numbers_in(chunks@[k as int]@));
            assert(Set::<Seq<char>>::empty().union(members(before)) =~= members(before));
        }
        let ghost added = views(found@);
        out.append(&mut found);
        assert(views(out@) =~= before + added);
        assert(seen@ =~= members(views(out@))) by {
            let now = views(out@);
            assert forall|x: Seq<char>| now.contains(x) <==> (before.contains(x) || added.contains(
                x,
            )) by {
                if now.contains(x) {
                    let j = choose|j: int| 0 <= j < now.len() && now[j] == x;
                    if j < before.len() {
                        assert(before[j] == x);
                    } else {
                        assert(added[j - before.len()] == x);
                    }
                }
                if before.contains(x) {
                    let j = choose|j: int| 0 <= j < before.len() && before[j] == x;
                    assert(now[j] == x);
                }
                if added.contains(x) {
                    let j = choose|j: int| 0 <= j < added.len() && added[j] == x;
                    assert(now[before.len() + j] == x);
                }
            }
        }
        k += 1;
    }
    assert(texts.take(chunks.len() as int) =~= texts);
    out
}

} // verus!
