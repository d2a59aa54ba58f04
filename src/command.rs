//! Parsing of chat text into playback intents.
use vstd::prelude::*;

verus! {

/// The std notion of an alphanumeric character (Unicode `Alphabetic` or `Numeric`).
pub uninterp spec fn alphanumeric(c: char) -> bool;

/// Relies on `char::is_alphanumeric`: the answer depends on the character alone.
#[verifier::external_body]
fn is_alphanumeric(c: char) -> (r: bool)
    ensures
        r == alphanumeric(c),
{
    c.is_alphanumeric()
}

/// Punctuation that survives sanitization.
pub open spec fn allowed_punctuation(c: char) -> bool {
    c == ' ' || c == '.' || c == '=' || c == '\t' || c == ',' || c == '?' || c == '!' || c == ':'
        || c == '&' || c == '/' || c == '-' || c == '_'
}

/// Whether sanitization keeps `c`.
pub open spec fn kept(c: char) -> bool {
    alphanumeric(c) || allowed_punctuation(c)
}

/// The characters of `s` that are kept, in order.
pub open spec fn sanitized(s: Seq<char>) -> Seq<char>
    decreases s.len(),
{
    if s.len() == 0 {
        s
    } else {
        let init = sanitized(s.drop_last());
        if kept(s.last()) {
            init.push(s.last())
        } else {
            init
        }
    }
}

/// The characters of `s`, in order.
pub(crate) fn chars_of(s: &str) -> (r: Vec<char>)
    ensures
        r@ == s@,
{
    let mut out: Vec<char> = Vec::new();
    for c in it: s.chars()
        invariant
            it.seq() == s@,
            out@ == it.seq().take(it.index() as int),
    {
        out.push(c);
        assert(out@ =~= it.seq().take(it.index() + 1));
    }
    assert(s@.take(s@.len() as int) =~= s@);
    out
}

/// Keeps the alphanumeric characters and the allowed punctuation of `s`.
pub fn sanitize(s: &Vec<char>) -> (r: Vec<char>)
    ensures
        r@ == sanitized(s@),
{
    let mut out: Vec<char> = Vec::new();
    let mut i: usize = 0;
    assert(s@.take(0) =~= Seq::<char>::empty());
    while i < s.len()
        invariant
            i <= s.len(),
            out@ == sanitized(s@.take(i as int)),
        decreases s.len() - i,
    {
        let c = s[i];
        let keep = is_alphanumeric(c) || c == ' ' || c == '.' || c == '=' || c == '\t' || c == ','
            || c == '?' || c == '!' || c == ':' || c == '&' || c == '/' || c == '-' || c == '_';
        assert(s@.take(i + 1).drop_last() =~= s@.take(i as int));
        if keep {
            out.push(c);
        }
        i = i + 1;
    }
    assert(s@.take(s.len() as int) =~= s@);
    out
}

/// `s` with every non-overlapping occurrence of the non-empty `pat` removed,
/// matching from left to right.
pub open spec fn without(s: Seq<char>, pat: Seq<char>) -> Seq<char>
    decreases s.len(),
{
    if s.len() == 0 || pat.len() == 0 {
        s
    } else if pat.len() <= s.len() && s.take(pat.len() as int) == pat {
        without(s.skip(pat.len() as int), pat)
    } else {
        seq![s[0]] + without(s.drop_first(), pat)
    }
}

/// Whether `pat` occurs in `s` at position `i`.
fn occurs_at(s: &Vec<char>, i: usize, pat: &Vec<char>) -> (r: bool)
    requires
        i <= s.len(),
    ensures
        r == (pat.len() <= s.len() - i && s@.subrange(i as int, i + pat.len()) == pat@),
{
    if pat.len() > s.len() - i {
        return false;
    }
    let mut j: usize = 0;
    while j < pat.len()
        invariant
            j <= pat.len(),
            pat.len() <= s.len() - i,
            forall|k: int| 0 <= k < j ==> s@[i + k] == pat@[k],
        decreases pat.len() - j,
    {
        if s[i + j] != pat[j] {
            assert(s@.subrange(i as int, i + pat.len())[j as int] != pat@[j as int]);
            return false;
        }
        j = j + 1;
    }
    assert(s@.subrange(i as int, i + pat.len()) =~= pat@);
    true
}

/// Removes every occurrence of the non-empty `pat` from `s`.
fn remove_all(s: &Vec<char>, pat: &Vec<char>) -> (r: Vec<char>)
    requires
        pat.len() > 0,
    ensures
        r@ == without(s@, pat@),
{
    let mut out: Vec<char> = Vec::new();
    let mut i: usize = 0;
    assert(s@.skip(0) =~= s@);
    assert(out@ + without(s@, pat@) =~= without(s@, pat@));
    while i < s.len()
        invariant
            i <= s.len(),
            pat.len() > 0,
            without(s@, pat@) == out@ + without(s@.skip(i as int), pat@),
        decreases s.len() - i,
    {
        let ghost rest = s@.skip(i as int);
        if occurs_at(s, i, pat) {
            proof {
                assert(rest.take(pat.len() as int) =~= s@.subrange(i as int, i + pat.len()));
                assert(rest.skip(pat.len() as int) =~= s@.skip(i + pat.len()));
            }
            i = i + pat.len();
        } else {
            proof {
                assert(pat.len() <= rest.len() ==> rest.take(pat.len() as int) =~= s@.subrange(
                    i as int,
                    i + pat.len(),
                ));
                assert(rest.drop_first() =~= s@.skip(i + 1));
                assert(rest[0] == s@[i as int]);
                assert(out@.push(s@[i as int]) + without(s@.skip(i + 1), pat@) =~= out@ + (seq![
                    s@[i as int],
                ] + without(s@.skip(i + 1), pat@)));
            }
            out.push(s[i]);
            i = i + 1;
        }
    }
    proof {
        assert(s@.skip(i as int).len() == 0);
        assert(out@ + seq![] =~= out@);
    }
    out
}

pub open spec fn is_blank(c: char) -> bool {
    c == ' ' || c == '\t'
}

/// `s` without its leading blanks.
pub open spec fn trim_front(s: Seq<char>) -> Seq<char>
    decreases s.len(),
{
    if s.len() > 0 && is_blank(s[0]) {
        trim_front(s.drop_first())
    } else {
        s
    }
}

/// `s` without its trailing blanks.
pub open spec fn trim_back(s: Seq<char>) -> Seq<char>
    decreases s.len(),
{
    if s.len() > 0 && is_blank(s.last()) {
        trim_back(s.drop_last())
    } else {
        s
    }
}

/// `s` without surrounding blanks.
pub open spec fn trimmed(s: Seq<char>) -> Seq<char> {
    trim_back(trim_front(s))
}

/// Removes the surrounding spaces and tabs of `s`.
fn trim(s: &Vec<char>) -> (r: Vec<char>)
    ensures
        r@ == trimmed(s@),
{
    let mut lo: usize = 0;
    assert(s@.skip(0) =~= s@);
    while lo < s.len() && (s[lo] == ' ' || s[lo] == '\t')
        invariant
            lo <= s.len(),
            trim_front(s@) == trim_front(s@.skip(lo as int)),
        decreases s.len() - lo,
    {
        assert(s@.skip(lo as int).drop_first() =~= s@.skip(lo + 1));
        lo = lo + 1;
    }
    let ghost front = s@.skip(lo as int);
    assert(trim_front(front) == front);
    let mut hi: usize = s.len();
    while hi > lo && (s[hi - 1] == ' ' || s[hi - 1] == '\t')
        invariant
            lo <= hi <= s.len(),
            trim_back(front) == trim_back(s@.subrange(lo as int, hi as int)),
        decreases hi,
    {
        assert(s@.subrange(lo as int, hi as int).drop_last() =~= s@.subrange(
            lo as int,
            hi - 1,
        ));
        hi = hi - 1;
    }
    let mut out: Vec<char> = Vec::new();
    let mut k: usize = lo;
    while k < hi
        invariant
            lo <= k <= hi <= s.len(),
            out@ == s@.subrange(lo as int, k as int),
        decreases hi - k,
    {
        out.push(s[k]);
        k = k + 1;
        assert(out@ =~= s@.subrange(lo as int, k as int));
    }
    assert(trim_back(s@.subrange(lo as int, hi as int)) == s@.subrange(lo as int, hi as int));
    out
}

/// The pieces of `s` between single occurrences of `sep`; there is always at least one.
pub open spec fn pieces(s: Seq<char>, sep: char) -> Seq<Seq<char>>
    decreases s.len(),
{
    if s.len() == 0 {
        seq![Seq::empty()]
    } else {
        let init = pieces(s.drop_last(), sep);
        if s.last() == sep {
            init.push(Seq::empty())
        } else {
            init.update(init.len() - 1, init.last().push(s.last()))
        }
    }
}

pub proof fn lemma_pieces_nonempty(s: Seq<char>, sep: char)
    ensures
        pieces(s, sep).len() >= 1,
    decreases s.len(),
{
    if s.len() > 0 {
        lemma_pieces_nonempty(s.drop_last(), sep);
    }
}

/// Splits `s` at every `sep`.
pub fn split(s: &Vec<char>, sep: char) -> (r: Vec<Vec<char>>)
    ensures
        r.deep_view() == pieces(s@, sep),
{
    let mut done: Vec<Vec<char>> = Vec::new();
    let mut cur: Vec<char> = Vec::new();
    let mut i: usize = 0;
    assert(s@.take(0) =~= Seq::<char>::empty());
    assert(done.deep_view().push(cur@) =~= seq![Seq::<char>::empty()]);
    while i < s.len()
        invariant
            i <= s.len(),
            done.deep_view().push(cur@) == pieces(s@.take(i as int), sep),
        decreases s.len() - i,
    {
        let ghost prev = s@.take(i as int);
        proof {
            assert(s@.take(i + 1).drop_last() =~= prev);
            lemma_pieces_nonempty(prev, sep);
        }
        if s[i] == sep {
            let finished = cur;
            let ghost before = done.deep_view();
            done.push(finished);
            cur = Vec::new();
            assert(finished.deep_view() =~= finished@);
            assert(done.deep_view() =~= before.push(finished@));
            assert(cur@ =~= Seq::<char>::empty());
            assert(done.deep_view().push(cur@) =~= pieces(prev, sep).push(Seq::empty()));
        } else {
            cur.push(s[i]);
            assert(done.deep_view().push(cur@).last() == cur@);
            assert(done.deep_view().push(cur@) =~= pieces(prev, sep).update(
                pieces(prev, sep).len() - 1,
                pieces(prev, sep).last().push(s@[i as int]),
            ));
        }
        i = i + 1;
    }
    assert(s@.take(s.len() as int) =~= s@);
    let ghost before = done.deep_view();
    done.push(cur);
    assert(cur.deep_view() =~= cur@);
    assert(done.deep_view() =~= before.push(cur@));
    done
}

pub open spec fn is_digit(c: char) -> bool {
    '0' <= c <= '9'
}

/// `s` is a non-empty run of decimal digits.
pub open spec fn is_number(s: Seq<char>) -> bool {
    s.len() > 0 && forall|i: int| 0 <= i < s.len() ==> is_digit(#[trigger] s[i])
}

/// The value of the decimal digits `s`.
pub open spec fn number_value(s: Seq<char>) -> nat
    decreases s.len(),
{
    if s.len() == 0 {
        0
    } else {
        number_value(s.drop_last()) * 10 + (s.last() as nat - '0' as nat) as nat
    }
}

/// The largest volume, in percent.
pub const MAX_PERCENT: u32 = 100;

/// Reads `s` as a non-negative decimal number clamped to `MAX_PERCENT`.
fn percent_of(s: &Vec<char>) -> (r: Option<u32>)
    ensures
        r == (if is_number(s@) {
            Some(
                if number_value(s@) > MAX_PERCENT {
                    MAX_PERCENT
                } else {
                    number_value(s@) as u32
                },
            )
        } else {
            None
        }),
{
    if s.len() == 0 {
        return None;
    }
    // `acc` saturates just above the clamp so that it never overflows.
    let mut acc: u32 = 0;
    let mut i: usize = 0;
    assert(s@.take(0) =~= Seq::<char>::empty());
    while i < s.len()
        invariant
            i <= s.len(),
            forall|k: int| 0 <= k < i ==> is_digit(#[trigger] s@[k]),
            acc == (if number_value(s@.take(i as int)) > 101 {
                101
            } else {
                number_value(s@.take(i as int))
            }),
        decreases s.len() - i,
    {
        let c = s[i];
        if !('0' <= c && c <= '9') {
            assert(!is_digit(s@[i as int]));
            return None;
        }
        let d: u32 = (c as u32) - ('0' as u32);
        let ghost v = number_value(s@.take(i as int));
        assert(s@.take(i + 1).drop_last() =~= s@.take(i as int));
        assert(number_value(s@.take(i + 1)) == v * 10 + d);
        acc = if acc > 100 {
            101
        } else if acc * 10 + d > 101 {
            101
        } else {
            acc * 10 + d
        };
        i = i + 1;
    }
    assert(s@.take(s.len() as int) =~= s@);
    Some(if acc > MAX_PERCENT { MAX_PERCENT } else { acc })
}

/// What a chat message asks of the player.
#[derive(Debug, Clone, PartialEq, Eq)]
pub enum Intent {
    /// Play the given source, or queue it behind the current one.
    PlayRequest(String),
    /// Stop the current stream.
    Stop,
    /// Set the volume, in percent of full scale (at most `MAX_PERCENT`).
    SetVolume(u32),
    /// Nothing to do.
    NoOp,
}

/// The mathematical value of an `Intent`.
pub enum IntentModel {
    PlayRequest(Seq<char>),
    Stop,
    SetVolume(nat),
    NoOp,
}

impl View for Intent {
    type V = IntentModel;

    open spec fn view(&self) -> IntentModel {
        match self {
            Intent::PlayRequest(s) => IntentModel::PlayRequest(s@),
            Intent::Stop => IntentModel::Stop,
            Intent::SetVolume(p) => IntentModel::SetVolume(*p as nat),
            Intent::NoOp => IntentModel::NoOp,
        }
    }
}

pub open spec fn url_open() -> Seq<char> {
    seq!['[', 'U', 'R', 'L', ']']
}

pub open spec fn url_close() -> Seq<char> {
    seq!['[', '/', 'U', 'R', 'L', ']']
}

pub open spec fn stop_word() -> Seq<char> {
    seq!['!', 's', 't', 'o', 'p']
}

pub open spec fn volume_word() -> Seq<char> {
    seq!['!', 'v', 'o', 'l', 'u', 'm', 'e']
}

pub open spec fn play_word() -> Seq<char> {
    seq!['!', 'y', 't']
}

/// A second command word that plays a source, as `play_word` does.
pub open spec fn play_alias() -> Seq<char> {
    seq!['!', 'b', 'r', 'k', 'i']
}

/// A message after link markup, disallowed characters and surrounding blanks are removed.
pub open spec fn normalized(msg: Seq<char>) -> Seq<char> {
    trimmed(sanitized(without(without(msg, url_open()), url_close())))
}

/// The command words of a normalized message that starts with `!`.
pub open spec fn intent_of_words(words: Seq<Seq<char>>) -> IntentModel {
    if words[0] == stop_word() {
        IntentModel::Stop
    } else if words.len() < 2 {
        IntentModel::NoOp
    } else if words[0] == volume_word() {
        if is_number(words[1]) {
            IntentModel::SetVolume(
                if number_value(words[1]) > MAX_PERCENT {
                    MAX_PERCENT as nat
                } else {
                    number_value(words[1])
                },
            )
        } else {
            IntentModel::NoOp
        }
    } else if words[0] == play_word() || words[0] == play_alias() {
        IntentModel::PlayRequest(words[1])
    } else {
        IntentModel::NoOp
    }
}

/// What a message asks for, once link markup and disallowed characters are gone.
pub open spec fn intent_of_text(text: Seq<char>) -> IntentModel {
    let t = trimmed(text);
    if t.len() == 0 || t[0] != '!' {
        IntentModel::NoOp
    } else {
        intent_of_words(pieces(t, ' '))
    }
}

/// What the chat message `msg` asks for.
pub open spec fn intent_of(msg: Seq<char>) -> IntentModel {
    intent_of_text(sanitized(without(without(msg, url_open()), url_close())))
}

fn same(a: &Vec<char>, b: &Vec<char>) -> (r: bool)
    ensures
        r == (a@ == b@),
{
    let r = a.len() == b.len() && occurs_at(a, 0, b);
    assert(a.len() == b.len() ==> a@.subrange(0, b.len() as int) =~= a@);
    r
}

/// Relies on `String`'s `FromIterator<&char>`: the string holds the characters in order.
#[verifier::external_body]
pub(crate) fn string_from(chars: &Vec<char>) -> (r: String)
    ensures
        r@ == chars@,
{
    chars.iter().collect()
}

/// Decides the intent of a message from which link markup and disallowed
/// characters have been removed.
pub fn parse_sanitized(text: &Vec<char>) -> (r: Intent)
    ensures
        r@ == intent_of_text(text@),
{
    let text = trim(text);
    if text.len() == 0 || text[0] != '!' {
        return Intent::NoOp;
    }
    let words = split(&text, ' ');
    proof {
        lemma_pieces_nonempty(text@, ' ');
    }
    assert(words.deep_view()[0] == words[0]@);
    let stop = vec!['!', 's', 't', 'o', 'p'];
    assert(stop@ =~= stop_word());
    if same(&words[0], &stop) {
        return Intent::Stop;
    }
    if words.len() < 2 {
        return Intent::NoOp;
    }
    assert(words.deep_view()[1] == words[1]@);
    let volume = vec!['!', 'v', 'o', 'l', 'u', 'm', 'e'];
    assert(volume@ =~= volume_word());
    if same(&words[0], &volume) {
        return match percent_of(&words[1]) {
            Some(p) => Intent::SetVolume(p),
            None => Intent::NoOp,
        };
    }
    let play = vec!['!', 'y', 't'];
    let alias = vec!['!', 'b', 'r', 'k', 'i'];
    assert(play@ =~= play_word());
    assert(alias@ =~= play_alias());
    if same(&words[0], &play) || same(&words[0], &alias) {
        return Intent::PlayRequest(string_from(&words[1]));
    }
    Intent::NoOp
}

/// Turns a chat message into the intent it expresses; anything that is not a
/// well-formed command is `Intent::NoOp`.
pub fn parse_command(msg: &str) -> (r: Intent)
    ensures
        r@ == intent_of(msg@),
        normalized(msg@).len() == 0 || normalized(msg@)[0] != '!' ==> r == Intent::NoOp,
{
    let raw = chars_of(msg);
    let open = vec!['[', 'U', 'R', 'L', ']'];
    let close = vec!['[', '/', 'U', 'R', 'L', ']'];
    assert(open@ =~= url_open());
    assert(close@ =~= url_close());
    let stripped = remove_all(&remove_all(&raw, &open), &close);
    parse_sanitized(&sanitize(&stripped))
}

/// A message whose normalized text is empty or does not start with `!` asks
/// for nothing.
pub proof fn lemma_plain_text_is_noop(msg: Seq<char>)
    requires
        normalized(msg).len() == 0 || normalized(msg)[0] != '!',
    ensures
        intent_of(msg) == IntentModel::NoOp,
{
}

} // verus!
