//! The native command-line quoting convention: parameters are joined with
//! single spaces, and a parameter that contains a space is wrapped in double
//! quotes. No escaping of embedded quote characters is performed; that is a
//! documented limitation of the convention, not an accident.

use vstd::prelude::*;

verus! {

/// Relies on String::push of std, which vstd leaves unspecified: it appends
/// the given character to the end of the string.
pub assume_specification[ String::push ](s: &mut String, c: char)
    ensures
        final(s)@ == old(s)@.push(c),
;

/// A parameter as it appears on the joined command line: wrapped in double
/// quotes when it contains a space, verbatim otherwise.
pub open spec fn quote_param(p: Seq<char>) -> Seq<char> {
    if p.contains(' ') {
        seq!['"'] + p + seq!['"']
    } else {
        p
    }
}

/// The joined command line: quoted parameters separated by single spaces.
pub open spec fn join(params: Seq<Seq<char>>) -> Seq<char>
    decreases params.len(),
{
    if params.len() == 0 {
        Seq::empty()
    } else if params.len() == 1 {
        quote_param(params[0])
    } else {
        quote_param(params[0]) + seq![' '] + join(params.drop_first())
    }
}

/// One step at a time, split a command line on the spaces that stand
/// outside double quotes. A quote character toggles the quoted state and is
/// dropped; `cur` is the token being collected and `acc` the tokens already
/// finished.
pub open spec fn split_rec(
    s: Seq<char>,
    in_quote: bool,
    cur: Seq<char>,
    acc: Seq<Seq<char>>,
) -> Seq<Seq<char>>
    decreases s.len(),
{
    if s.len() == 0 {
        acc.push(cur)
    } else if s[0] == '"' {
        split_rec(s.drop_first(), !in_quote, cur, acc)
    } else if s[0] == ' ' && !in_quote {
        split_rec(s.drop_first(), in_quote, Seq::empty(), acc.push(cur))
    } else {
        split_rec(s.drop_first(), in_quote, cur.push(s[0]), acc)
    }
}

/// Split a command line back into parameters by the same convention the
/// joiner uses: spaces outside double quotes separate parameters, and the
/// quote characters themselves are dropped. An empty line holds no
/// parameters at all.
pub open spec fn split(s: Seq<char>) -> Seq<Seq<char>> {
    if s.len() == 0 {
        Seq::empty()
    } else {
        split_rec(s, false, Seq::empty(), Seq::empty())
    }
}

/// Whether a string contains a given character.
pub fn contains_char(s: &str, c: char) -> (r: bool)
    ensures
        r == s@.contains(c),
{
    let n = s.unicode_len();
    let mut i: usize = 0;
    while i < n
        invariant
            n == s@.len(),
            i <= n,
            forall|j: int| 0 <= j < i ==> s@[j] != c,
        decreases n - i,
    {
        if s.get_char(i) == c {
            return true;
        }
        i += 1;
    }
    assert(!s@.contains(c));
    false
}

/// Appending one parameter extends the joined line by a separator (when the
/// line is not the first parameter's) and the quoted parameter.
proof fn lemma_join_push(params: Seq<Seq<char>>, p: Seq<char>)
    ensures
        params.len() == 0 ==> join(params.push(p)) == quote_param(p),
        params.len() > 0 ==> join(params.push(p)) == join(params) + seq![' '] + quote_param(p),
    decreases params.len(),
{
    if params.len() == 0 {
        assert(params.push(p)[0] == p);
    } else if params.len() == 1 {
        assert(params.push(p)[0] == params[0]);
        assert(params.push(p).drop_first() =~= seq![p]);
        assert(join(seq![p]) == quote_param(seq![p][0]));
        assert(seq![p][0] == p);
    } else {
        assert(params.push(p)[0] == params[0]);
        assert(params.push(p).drop_first() =~= params.drop_first().push(p));
        lemma_join_push(params.drop_first(), p);
        assert(join(params) + seq![' '] + quote_param(p) =~= quote_param(params[0]) + seq![' ']
            + (join(params.drop_first()) + seq![' '] + quote_param(p)));
    }
}

/// Characters that are neither quotes nor unquoted separators pass straight
/// into the token being collected.
proof fn lemma_split_rec_plain(
    x: Seq<char>,
    suffix: Seq<char>,
    in_quote: bool,
    cur: Seq<char>,
    acc: Seq<Seq<char>>,
)
    requires
        forall|i: int| 0 <= i < x.len() ==> x[i] != '"',
        !in_quote ==> forall|i: int| 0 <= i < x.len() ==> x[i] != ' ',
    ensures
        split_rec(x + suffix, in_quote, cur, acc) == split_rec(suffix, in_quote, cur + x, acc),
    decreases x.len(),
{
    if x.len() == 0 {
        assert(x + suffix =~= suffix);
        assert(cur + x =~= cur);
    } else {
        let c = x[0];
        assert((x + suffix)[0] == c);
        assert((x + suffix).drop_first() =~= x.drop_first() + suffix);
        assert(forall|i: int|
            0 <= i < x.drop_first().len() ==> x.drop_first()[i] == x[i + 1]);
        lemma_split_rec_plain(x.drop_first(), suffix, in_quote, cur.push(c), acc);
        assert(cur.push(c) + x.drop_first() =~= cur + x);
    }
}

/// A quoted region reads back as its contents: the two quote characters are
/// dropped and the spaces between them are kept in the token.
proof fn lemma_split_rec_quoted(x: Seq<char>, suffix: Seq<char>, cur: Seq<char>, acc: Seq<Seq<char>>)
    requires
        forall|i: int| 0 <= i < x.len() ==> x[i] != '"',
    ensures
        split_rec(seq!['"'] + x + seq!['"'] + suffix, false, cur, acc) == split_rec(
            suffix,
            false,
            cur + x,
            acc,
        ),
{
    let s = seq!['"'] + x + seq!['"'] + suffix;
    assert(s[0] == '"');
    assert(s.drop_first() =~= x + (seq!['"'] + suffix));
    lemma_split_rec_plain(x, seq!['"'] + suffix, true, cur, acc);
    assert((seq!['"'] + suffix)[0] == '"');
    assert((seq!['"'] + suffix).drop_first() =~= suffix);
}

/// A quoted parameter that holds no quote character of its own reads back
/// unchanged, whether or not the joiner wrapped it.
proof fn lemma_split_rec_param(p: Seq<char>, suffix: Seq<char>, cur: Seq<char>, acc: Seq<Seq<char>>)
    requires
        !p.contains('"'),
    ensures
        split_rec(quote_param(p) + suffix, false, cur, acc) == split_rec(suffix, false, cur + p, acc),
{
    assert(forall|i: int| 0 <= i < p.len() ==> p[i] != '"');
    if p.contains(' ') {
        assert(quote_param(p) + suffix =~= seq!['"'] + p + seq!['"'] + suffix);
        lemma_split_rec_quoted(p, suffix, cur, acc);
    } else {
        assert(forall|i: int| 0 <= i < p.len() ==> p[i] != ' ');
        lemma_split_rec_plain(p, suffix, false, cur, acc);
    }
}

/// An unquoted space finishes the current token and starts an empty one.
proof fn lemma_split_rec_sep(rest: Seq<char>, cur: Seq<char>, acc: Seq<Seq<char>>)
    ensures
        split_rec(seq![' '] + rest, false, cur, acc) == split_rec(
            rest,
            false,
            Seq::empty(),
            acc.push(cur),
        ),
{
    assert((seq![' '] + rest)[0] == ' ');
    assert((seq![' '] + rest).drop_first() =~= rest);
}

/// Splitting the joined line of a nonempty parameter sequence appends
/// exactly those parameters to the tokens already finished.
proof fn lemma_split_rec_join(params: Seq<Seq<char>>, acc: Seq<Seq<char>>)
    requires
        params.len() >= 1,
        forall|i: int| 0 <= i < params.len() ==> !(#[trigger] params[i]).contains('"'),
    ensures
        split_rec(join(params), false, Seq::empty(), acc) == acc + params,
    decreases params.len(),
{
    let p0 = params[0];
    if params.len() == 1 {
        assert(join(params) =~= quote_param(p0) + Seq::<char>::empty());
        lemma_split_rec_param(p0, Seq::empty(), Seq::empty(), acc);
        assert(Seq::<char>::empty() + p0 =~= p0);
        assert(acc.push(p0) =~= acc + params);
    } else {
        let rest = params.drop_first();
        assert(join(params) =~= quote_param(p0) + (seq![' '] + join(rest)));
        lemma_split_rec_param(p0, seq![' '] + join(rest), Seq::empty(), acc);
        assert(Seq::<char>::empty() + p0 =~= p0);
        lemma_split_rec_sep(join(rest), p0, acc);
        assert(forall|i: int| 0 <= i < rest.len() ==> rest[i] == params[i + 1]);
        lemma_split_rec_join(rest, acc.push(p0));
        assert(acc.push(p0) + rest =~= acc + params);
    }
}

/// The joined line of a parameter sequence is empty only for no parameters
/// at all or for the single empty parameter.
proof fn lemma_join_nonempty(params: Seq<Seq<char>>)
    requires
        params.len() >= 2 || (params.len() == 1 && params[0].len() > 0),
    ensures
        join(params).len() > 0,
{
}

/// Joining is idempotent under re-parsing: splitting the joined command
/// line on the spaces that stand outside double quotes recovers the
/// original parameter sequence. This holds for every sequence whose
/// parameters contain no literal double-quote character — the convention
/// performs no quote escaping, a documented limitation — except the
/// sequence of one empty parameter, which joins to the empty line and
/// reads back as no parameters at all.
pub proof fn lemma_join_split_round_trip(params: Seq<Seq<char>>)
    requires
        forall|i: int| 0 <= i < params.len() ==> !(#[trigger] params[i]).contains('"'),
        !(params.len() == 1 && params[0].len() == 0),
    ensures
        split(join(params)) == params,
{
    if params.len() == 0 {
        assert(split(join(params)) =~= params);
    } else {
        lemma_join_nonempty(params);
        lemma_split_rec_join(params, Seq::empty());
        assert(Seq::<Seq<char>>::empty() + params =~= params);
    }
}

/// Join a sequence of parameters into one command line with the quoting
/// convention: single-space separators, and double quotes around any
/// parameter that contains a space.
pub fn join_params(params: &Vec<String>) -> (r: String)
    ensures
        r@ == join(params.deep_view()),
{
    let ghost pv = params.deep_view();
    let mut r = String::new();
    let mut i: usize = 0;
    while i < params.len()
        invariant
            pv == params.deep_view(),
            i <= params.len(),
            r@ == join(pv.take(i as int)),
        decreases params.len() - i,
    {
        proof {
            reveal_strlit(" ");
            reveal_strlit("\"");
            assert(pv.take(i + 1).drop_last() =~= pv.take(i as int));
            assert(pv.take(i + 1).last() == pv[i as int]);
            assert(pv.take(i + 1) =~= pv.take(i as int).push(pv[i as int]));
            lemma_join_push(pv.take(i as int), pv[i as int]);
        }
        if i != 0 {
            r.append(" ");
        }
        let p = &params[i];
        if contains_char(p.as_str(), ' ') {
            r.append("\"");
            r.append(p.as_str());
            r.append("\"");
            assert(r@ =~= join(pv.take(i + 1)));
        } else {
            r.append(p.as_str());
            assert(r@ =~= join(pv.take(i + 1)));
        }
        i += 1;
    }
    assert(pv.take(params.len() as int) =~= pv);
    r
}

/// Split a command line back into its parameters: spaces outside double
/// quotes separate parameters, the quote characters themselves are dropped,
/// and the empty line holds no parameters at all.
pub fn split_command_line(s: &str) -> (r: Vec<String>)
    ensures
        r.deep_view() == split(s@),
{
    let n = s.unicode_len();
    if n == 0 {
        let r: Vec<String> = Vec::new();
        assert(r.deep_view() =~= split(s@));
        return r;
    }
    let mut acc: Vec<String> = Vec::new();
    let mut cur = String::new();
    let mut in_quote = false;
    let mut i: usize = 0;
    assert(s@.skip(0) =~= s@);
    assert(acc.deep_view() =~= Seq::<Seq<char>>::empty());
    while i < n
        invariant
            n == s@.len(),
            n > 0,
            i <= n,
            split_rec(s@.skip(i as int), in_quote, cur@, acc.deep_view()) == split(s@),
        decreases n - i,
    {
        let ghost pre = s@.skip(i as int);
        let ghost acc0 = acc.deep_view();
        assert(pre[0] == s@[i as int]);
        assert(pre.drop_first() =~= s@.skip(i + 1));
        let c = s.get_char(i);
        if c == '"' {
            in_quote = !in_quote;
        } else if c == ' ' && !in_quote {
            let ghost cur0 = cur@;
            acc.push(cur);
            cur = String::new();
            assert(acc.deep_view() =~= acc0.push(cur0));
        } else {
            cur.push(c);
        }
        i += 1;
    }
    assert(s@.skip(n as int) =~= Seq::<char>::empty());
    let ghost accv = acc.deep_view();
    let ghost curv = cur@;
    acc.push(cur);
    assert(acc.deep_view() =~= accv.push(curv));
    acc
}

} // verus!
