//! Derivation of the fixed-format identifier (barcode value) from a
//! record's natural key: uppercase, strip a fixed character set, trim
//! whitespace, and left-pad with `'0'` to the uniform length.

use vstd::prelude::*;

use crate::text::{
    chars_of, is_space_char, is_space_char_exec, is_stripped_char, is_stripped_char_exec,
    lemma_trim_end_shape, string_from_chars, trim_end_spec, trim_spec,
    trim_start_spec, upper_char, upper_char_exec,
};

verus! {

/// The uniform identifier length; shorter values are left-padded with `'0'`,
/// longer values are kept (never truncated) and flagged.
pub const IDENTIFIER_LEN: usize = 13;

/// `s` uppercased with the stripped character set removed, in order.
pub open spec fn strip_upper(s: Seq<char>) -> Seq<char>
    decreases s.len(),
{
    if s.len() == 0 {
        Seq::empty()
    } else {
        let rest = strip_upper(s.drop_last());
        let c = upper_char(s.last());
        if is_stripped_char(c) {
            rest
        } else {
            rest.push(c)
        }
    }
}

/// Left-pads `s` with `'0'` up to [`IDENTIFIER_LEN`]; longer values pass
/// through unchanged.
pub open spec fn pad_spec(s: Seq<char>) -> Seq<char> {
    if s.len() >= IDENTIFIER_LEN {
        s
    } else {
        Seq::new((IDENTIFIER_LEN - s.len()) as nat, |i: int| '0') + s
    }
}

/// The identifier derived from a natural key.
pub open spec fn identifier_spec(name: Seq<char>) -> Seq<char> {
    pad_spec(trim_spec(strip_upper(name)))
}

/// Derives the identifier for `name`. The second component reports a length
/// violation: the stripped key already exceeds [`IDENTIFIER_LEN`], so the
/// value is kept over-length rather than truncated, and the caller should
/// surface a diagnostic.
pub fn derive_identifier(name: &str) -> (r: (String, bool))
    ensures
        r.0@ == identifier_spec(name@),
        r.1 == (identifier_spec(name@).len() > IDENTIFIER_LEN),
{
    let cs = chars_of(name);
    let ghost full = cs@;

    // Uppercase and strip in one pass.
    let mut v: Vec<char> = Vec::new();
    let mut i: usize = 0;
    while i < cs.len()
        invariant
            i <= cs.len(),
            cs@ == full,
            v@ == strip_upper(full.subrange(0, i as int)),
        decreases cs.len() - i,
    {
        let u = upper_char_exec(cs[i]);
        proof {
            let pre = full.subrange(0, i as int);
            let ext = full.subrange(0, i as int + 1);
            assert(ext.drop_last() =~= pre);
            assert(ext.last() == full[i as int]);
        }
        if !is_stripped_char_exec(u) {
            v.push(u);
        }
        i += 1;
    }
    proof {
        assert(full.subrange(0, full.len() as int) =~= full);
    }
    let ghost stripped = strip_upper(full);

    // Trim leading whitespace.
    proof {
        assert(stripped.skip(0) =~= stripped);
    }
    let mut start: usize = 0;
    while start < v.len() && is_space_char_exec(v[start])
        invariant
            start <= v.len(),
            v@ == stripped,
            trim_start_spec(stripped.skip(start as int)) == trim_start_spec(stripped),
        decreases v.len() - start,
    {
        proof {
            let rest = stripped.skip(start as int);
            assert(rest.first() == stripped[start as int]);
            assert(rest.drop_first() =~= stripped.skip(start as int + 1));
        }
        start += 1;
    }
    proof {
        let rest = stripped.skip(start as int);
        if start < v.len() {
            assert(rest.first() == stripped[start as int]);
            assert(!is_space_char(rest.first()));
        }
        assert(trim_start_spec(rest) == rest);
    }

    // Copy the kept suffix.
    let mut t: Vec<char> = Vec::new();
    let mut j: usize = start;
    while j < v.len()
        invariant
            start <= j <= v.len(),
            v@ == stripped,
            t@ == stripped.subrange(start as int, j as int),
        decreases v.len() - j,
    {
        t.push(v[j]);
        proof {
            assert(stripped.subrange(start as int, j as int).push(stripped[j as int])
                =~= stripped.subrange(start as int, j as int + 1));
        }
        j += 1;
    }
    proof {
        assert(stripped.subrange(start as int, stripped.len() as int) =~= stripped.skip(
            start as int,
        ));
        assert(t@ == trim_start_spec(stripped));
    }
    let ghost headless = trim_start_spec(stripped);

    // Trim trailing whitespace.
    while t.len() > 0 && is_space_char_exec(t[t.len() - 1])
        invariant
            trim_end_spec(t@) == trim_end_spec(headless),
        decreases t.len(),
    {
        proof {
            assert(t@.last() == t@[t@.len() - 1]);
        }
        let ghost before = t@;
        t.pop();
        proof {
            assert(t@ =~= before.drop_last());
        }
    }
    proof {
        if t@.len() > 0 {
            assert(!is_space_char(t@.last()));
        }
        assert(trim_end_spec(t@) == t@);
        assert(t@ == trim_spec(stripped));
    }

    let trimmed_len = t.len();
    let over = trimmed_len > IDENTIFIER_LEN;

    // Left-pad with '0' to the uniform length.
    let mut out: Vec<char> = Vec::new();
    if trimmed_len < IDENTIFIER_LEN {
        let pad: usize = IDENTIFIER_LEN - trimmed_len;
        let mut k: usize = 0;
        while k < pad
            invariant
                k <= pad,
                out@.len() == k as int,
                forall|m: int| 0 <= m < k ==> out@[m] == '0',
            decreases pad - k,
        {
            out.push('0');
            k += 1;
        }
        proof {
            assert(out@ =~= Seq::new(pad as nat, |m: int| '0'));
        }
    }
    let ghost zeros = out@;
    out.append(&mut t);
    proof {
        assert(out@ == zeros + trim_spec(stripped));
        if trimmed_len >= IDENTIFIER_LEN {
            assert(zeros =~= Seq::<char>::empty());
            assert(out@ =~= trim_spec(stripped));
        }
        assert(out@ == identifier_spec(full));
    }
    let s = string_from_chars(&out);
    (s, over)
}

/// A character the identifier alphabet admits: a digit or an uppercase
/// ASCII letter.
pub open spec fn is_identifier_char(c: char) -> bool {
    ('0' <= c && c <= '9') || ('A' <= c && c <= 'Z')
}

/// A natural-key character that derivation maps into the identifier
/// alphabet: ASCII letters, digits, and the stripped punctuation.
pub open spec fn is_plain_key_char(c: char) -> bool {
    ('0' <= c && c <= '9') || ('A' <= c && c <= 'Z') || ('a' <= c && c <= 'z')
        || is_stripped_char(c)
}

/// Characters that survive trimming all come from the original sequence, so a
/// point-wise property of the input holds of the trimmed output.
pub proof fn lemma_trim_preserves(s: Seq<char>, p: spec_fn(char) -> bool)
    requires
        forall|i: int| 0 <= i < s.len() ==> p(s[i]),
    ensures
        forall|i: int| 0 <= i < trim_spec(s).len() ==> p(trim_spec(s)[i]),
{
    lemma_trim_start_preserves(s, p);
    lemma_trim_end_preserves(trim_start_spec(s), p);
}

proof fn lemma_trim_start_preserves(s: Seq<char>, p: spec_fn(char) -> bool)
    requires
        forall|i: int| 0 <= i < s.len() ==> p(s[i]),
    ensures
        forall|i: int| 0 <= i < trim_start_spec(s).len() ==> p(trim_start_spec(s)[i]),
    decreases s.len(),
{
    if s.len() > 0 && is_space_char(s.first()) {
        assert forall|i: int| 0 <= i < s.drop_first().len() implies p(s.drop_first()[i]) by {
            assert(s.drop_first()[i] == s[i + 1]);
        }
        lemma_trim_start_preserves(s.drop_first(), p);
        assert(trim_start_spec(s) == trim_start_spec(s.drop_first()));
        assert forall|i: int| 0 <= i < trim_start_spec(s).len() implies p(
            trim_start_spec(s)[i],
        ) by {
            assert(p(trim_start_spec(s.drop_first())[i]));
        }
    } else {
        assert forall|i: int| 0 <= i < trim_start_spec(s).len() implies p(
            trim_start_spec(s)[i],
        ) by {
            assert(trim_start_spec(s)[i] == s[i]);
        }
    }
}

proof fn lemma_trim_end_preserves(s: Seq<char>, p: spec_fn(char) -> bool)
    requires
        forall|i: int| 0 <= i < s.len() ==> p(s[i]),
    ensures
        forall|i: int| 0 <= i < trim_end_spec(s).len() ==> p(trim_end_spec(s)[i]),
    decreases s.len(),
{
    if s.len() > 0 && is_space_char(s.last()) {
        assert forall|i: int| 0 <= i < s.drop_last().len() implies p(s.drop_last()[i]) by {
            assert(s.drop_last()[i] == s[i]);
        }
        lemma_trim_end_preserves(s.drop_last(), p);
        assert(trim_end_spec(s) == trim_end_spec(s.drop_last()));
        assert forall|i: int| 0 <= i < trim_end_spec(s).len() implies p(trim_end_spec(s)[i]) by {
            assert(p(trim_end_spec(s.drop_last())[i]));
        }
    } else {
        assert forall|i: int| 0 <= i < trim_end_spec(s).len() implies p(trim_end_spec(s)[i]) by {
            assert(trim_end_spec(s)[i] == s[i]);
        }
    }
}

/// Every character of a stripped, uppercased key is fixed under a second
/// uppercasing and is not in the stripped set.
proof fn lemma_strip_upper_fixed_chars(s: Seq<char>)
    ensures
        forall|i: int| 0 <= i < strip_upper(s).len() ==> #[trigger] strip_upper(s)[i]
            == upper_char(strip_upper(s)[i]) && !is_stripped_char(strip_upper(s)[i]),
    decreases s.len(),
{
    if s.len() > 0 {
        lemma_strip_upper_fixed_chars(s.drop_last());
        let rest = strip_upper(s.drop_last());
        let c = upper_char(s.last());
        if !is_stripped_char(c) {
            assert(strip_upper(s) == rest.push(c));
            assert forall|i: int| 0 <= i < strip_upper(s).len() implies #[trigger] strip_upper(
                s,
            )[i] == upper_char(strip_upper(s)[i]) && !is_stripped_char(strip_upper(s)[i]) by {
                if i < rest.len() {
                    assert(strip_upper(s)[i] == rest[i]);
                } else {
                    assert(strip_upper(s)[i] == c);
                }
            }
        }
    }
}

/// On a sequence whose characters are already uppercased and outside the
/// stripped set, stripping and uppercasing is the identity.
proof fn lemma_strip_upper_of_fixed(s: Seq<char>)
    requires
        forall|i: int| 0 <= i < s.len() ==> #[trigger] s[i] == upper_char(s[i])
            && !is_stripped_char(s[i]),
    ensures
        strip_upper(s) == s,
    decreases s.len(),
{
    if s.len() > 0 {
        assert(forall|i: int| 0 <= i < s.drop_last().len() ==> s.drop_last()[i] == s[i]);
        lemma_strip_upper_of_fixed(s.drop_last());
        assert(strip_upper(s) =~= s);
    } else {
        assert(strip_upper(s) =~= s);
    }
}

/// When the input is made of plain key characters, the stripped, uppercased
/// key is made of identifier characters.
proof fn lemma_strip_upper_plain(s: Seq<char>)
    requires
        forall|i: int| 0 <= i < s.len() ==> is_plain_key_char(s[i]),
    ensures
        forall|i: int| 0 <= i < strip_upper(s).len() ==> is_identifier_char(
            #[trigger] strip_upper(s)[i],
        ),
    decreases s.len(),
{
    if s.len() > 0 {
        assert forall|i: int| 0 <= i < s.drop_last().len() implies is_plain_key_char(
            s.drop_last()[i],
        ) by {
            assert(s.drop_last()[i] == s[i]);
        }
        lemma_strip_upper_plain(s.drop_last());
        let rest = strip_upper(s.drop_last());
        let c = upper_char(s.last());
        assert(is_plain_key_char(s.last()));
        if !is_stripped_char(c) {
            assert(is_identifier_char(c));
            assert(strip_upper(s) == rest.push(c));
            assert forall|i: int| 0 <= i < strip_upper(s).len() implies is_identifier_char(
                #[trigger] strip_upper(s)[i],
            ) by {
                if i < rest.len() {
                    assert(strip_upper(s)[i] == rest[i]);
                } else {
                    assert(strip_upper(s)[i] == c);
                }
            }
        }
    }
}

/// Law: for every input, the derived identifier is at least
/// [`IDENTIFIER_LEN`] characters long, and exactly that long whenever the
/// stripped key does not exceed it; when the input is made of plain key
/// characters, the identifier consists only of digits and uppercase letters.
pub proof fn lemma_identifier_well_formed(name: Seq<char>)
    ensures
        identifier_spec(name).len() >= IDENTIFIER_LEN,
        trim_spec(strip_upper(name)).len() <= IDENTIFIER_LEN ==> identifier_spec(name).len()
            == IDENTIFIER_LEN,
        (forall|i: int| 0 <= i < name.len() ==> is_plain_key_char(name[i])) ==> forall|i: int|
            0 <= i < identifier_spec(name).len() ==> is_identifier_char(
            #[trigger] identifier_spec(name)[i],
        ),
{
    if forall|i: int| 0 <= i < name.len() ==> is_plain_key_char(name[i]) {
        lemma_strip_upper_plain(name);
        lemma_trim_preserves(strip_upper(name), |c: char| is_identifier_char(c));
        assert forall|i: int| 0 <= i < identifier_spec(name).len() implies is_identifier_char(
            identifier_spec(name)[i],
        ) by {
            let t = trim_spec(strip_upper(name));
            if t.len() < IDENTIFIER_LEN {
                let zeros = (IDENTIFIER_LEN - t.len()) as int;
                if i >= zeros {
                    assert(identifier_spec(name)[i] == t[i - zeros]);
                }
            }
        }
    }
}

/// Law: identifier derivation is deterministic — equal natural keys derive
/// equal identifiers.
pub proof fn lemma_identifier_deterministic(a: Seq<char>, b: Seq<char>)
    requires
        a == b,
    ensures
        identifier_spec(a) == identifier_spec(b),
{
}

/// Law: identifier derivation is idempotent — deriving again from a derived
/// identifier returns it unchanged.
pub proof fn lemma_identifier_idempotent(name: Seq<char>)
    ensures
        identifier_spec(identifier_spec(name)) == identifier_spec(name),
{
    let stripped = strip_upper(name);
    let t = trim_spec(stripped);
    let out = identifier_spec(name);

    lemma_strip_upper_fixed_chars(name);
    lemma_trim_preserves(stripped, |c: char| c == upper_char(c) && !is_stripped_char(c));
    assert(forall|i: int| 0 <= i < out.len() ==> #[trigger] out[i] == upper_char(out[i])
        && !is_stripped_char(out[i])) by {
        if t.len() < IDENTIFIER_LEN {
            let zeros = (IDENTIFIER_LEN - t.len()) as int;
            assert(forall|i: int| 0 <= i < out.len() && i >= zeros ==> out[i] == t[i - zeros]);
            assert(forall|i: int| 0 <= i < zeros ==> out[i] == '0');
        }
    }
    lemma_strip_upper_of_fixed(out);

    // The padded value is already trimmed: it is non-empty, its first
    // character is '0' or the first kept character, its last character is
    // the last kept character or '0'.
    lemma_trim_start_shape(stripped);
    lemma_trim_end_shape(trim_start_spec(stripped));
    if out.len() > 0 {
        if t.len() < IDENTIFIER_LEN {
            let zeros = (IDENTIFIER_LEN - t.len()) as int;
            assert(out.first() == '0');
            if t.len() > 0 {
                assert(out.last() == t[t.len() - 1]);
                assert(t.last() == t[t.len() - 1]);
            } else {
                assert(out.last() == '0');
            }
        } else {
            assert(out == t);
            assert(t.len() > 0);
            assert(t.first() == trim_start_spec(stripped)[0]);
            assert(!is_space_char(t.first()));
            assert(!is_space_char(t.last()));
        }
        assert(!is_space_char(out.first()));
        assert(!is_space_char(out.last()));
    }
    assert(trim_start_spec(out) == out);
    assert(trim_end_spec(out) == out);
    assert(out.len() >= IDENTIFIER_LEN);
    assert(pad_spec(out) == out);
}

/// Stripping never grows a sequence.
pub proof fn lemma_strip_upper_len(s: Seq<char>)
    ensures
        strip_upper(s).len() <= s.len(),
    decreases s.len(),
{
    if s.len() > 0 {
        lemma_strip_upper_len(s.drop_last());
    }
}

/// Trimming never grows a sequence.
pub proof fn lemma_trim_len(s: Seq<char>)
    ensures
        trim_spec(s).len() <= s.len(),
{
    lemma_trim_start_len(s);
    lemma_trim_end_shape(trim_start_spec(s));
}

proof fn lemma_trim_start_len(s: Seq<char>)
    ensures
        trim_start_spec(s).len() <= s.len(),
    decreases s.len(),
{
    if s.len() > 0 && is_space_char(s.first()) {
        lemma_trim_start_len(s.drop_first());
    }
}

/// The head of a start-trimmed sequence is never whitespace.
proof fn lemma_trim_start_shape(s: Seq<char>)
    ensures
        trim_start_spec(s).len() > 0 ==> !is_space_char(trim_start_spec(s).first()),
    decreases s.len(),
{
    if s.len() > 0 && is_space_char(s.first()) {
        lemma_trim_start_shape(s.drop_first());
    }
}

} // verus!
