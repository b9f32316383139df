//! A verified reader and writer for the judgment-service wire format.
//!
//! The judgment service answers with a JSON document of the shape
//! `{"artifact_type": s, "threat_level": s, "command": {"action": s,
//! "redirect_target": s-or-null}}`. The leading two members and the redirect
//! target may be absent. Strings are taken verbatim between their quotes;
//! a document that steps outside this shape is rejected, and rejection is
//! handled by the caller's fail-open policy.

use vstd::prelude::*;
use crate::bytes::matches_at;
use crate::verdict::Command;
use crate::verdict::CommandModel;
use crate::verdict::Verdict;
use crate::verdict::VerdictModel;

verus! {

pub const QUOTE: u8 = 34;

pub const BACKSLASH: u8 = 92;

pub const LBRACE: u8 = 123;

pub const RBRACE: u8 = 125;

pub const COLON: u8 = 58;

pub const COMMA: u8 = 44;

/// JSON insignificant whitespace: space, tab, line feed, carriage return.
pub open spec fn is_ws(b: u8) -> bool {
    b == 32 || b == 9 || b == 10 || b == 13
}

/// The first position at or after `i` holding no whitespace.
pub open spec fn spec_skip_ws(s: Seq<u8>, i: int) -> int
    decreases s.len() - i,
{
    if 0 <= i < s.len() && is_ws(s[i]) {
        spec_skip_ws(s, i + 1)
    } else {
        i
    }
}

/// Scans from `j` for the closing quote of a string. A backslash or the end
/// of the document ends the scan without a result.
pub open spec fn spec_scan_string(s: Seq<u8>, j: int) -> Option<int>
    decreases s.len() - j,
{
    if j < 0 || j >= s.len() {
        Option::None
    } else if s[j] == QUOTE {
        Option::Some(j)
    } else if s[j] == BACKSLASH {
        Option::None
    } else {
        spec_scan_string(s, j + 1)
    }
}

/// Reads a quoted string at `i`: its verbatim content and the position after
/// the closing quote.
pub open spec fn spec_parse_string(s: Seq<u8>, i: int) -> Option<(Seq<u8>, int)> {
    if 0 <= i < s.len() && s[i] == QUOTE {
        match spec_scan_string(s, i + 1) {
            Option::Some(j) => Option::Some((s.subrange(i + 1, j), j + 1)),
            Option::None => Option::None,
        }
    } else {
        Option::None
    }
}

/// Reads the exact byte string `lit` at `i` and yields the position after it.
pub open spec fn spec_expect(s: Seq<u8>, i: int, lit: Seq<u8>) -> Option<int> {
    if matches_at(s, lit, i) {
        Option::Some(i + lit.len())
    } else {
        Option::None
    }
}

/// The quoted key `"action"`.
pub open spec fn key_action() -> Seq<u8> {
    seq![34u8, 97u8, 99u8, 116u8, 105u8, 111u8, 110u8, 34u8]
}

/// The quoted key `"redirect_target"`.
pub open spec fn key_redirect() -> Seq<u8> {
    seq![
        34u8,
        114u8,
        101u8,
        100u8,
        105u8,
        114u8,
        101u8,
        99u8,
        116u8,
        95u8,
        116u8,
        97u8,
        114u8,
        103u8,
        101u8,
        116u8,
        34u8,
    ]
}

/// The quoted key `"artifact_type"`.
pub open spec fn key_artifact() -> Seq<u8> {
    seq![34u8, 97u8, 114u8, 116u8, 105u8, 102u8, 97u8, 99u8, 116u8, 95u8, 116u8, 121u8, 112u8, 101u8, 34u8]
}

/// The quoted key `"threat_level"`.
pub open spec fn key_threat() -> Seq<u8> {
    seq![34u8, 116u8, 104u8, 114u8, 101u8, 97u8, 116u8, 95u8, 108u8, 101u8, 118u8, 101u8, 108u8, 34u8]
}

/// The quoted key `"command"`.
pub open spec fn key_command() -> Seq<u8> {
    seq![34u8, 99u8, 111u8, 109u8, 109u8, 97u8, 110u8, 100u8, 34u8]
}

/// The literal `null`.
pub open spec fn lit_null() -> Seq<u8> {
    seq![110u8, 117u8, 108u8, 108u8]
}

/// Skips whitespace, executably.
fn skip_ws(s: &[u8], i: usize) -> (r: usize)
    requires
        i <= s@.len(),
    ensures
        r as int == spec_skip_ws(s@, i as int),
        i <= r <= s@.len(),
{
    let n = s.len();
    let mut j: usize = i;
    while j < n && (s[j] == 32 || s[j] == 9 || s[j] == 10 || s[j] == 13)
        invariant
            i <= j <= n,
            n == s@.len(),
            spec_skip_ws(s@, i as int) == spec_skip_ws(s@, j as int),
        decreases n - j,
    {
        j = j + 1;
    }
    j
}

/// True iff position `i` exists and holds the byte `b`.
fn at_byte(s: &[u8], i: usize, b: u8) -> (r: bool)
    ensures
        r == (i < s@.len() && s@[i as int] == b),
{
    if i < s.len() {
        s[i] == b
    } else {
        false
    }
}

/// Reads the exact byte string `lit` at `i`, executably.
fn expect(s: &[u8], i: usize, lit: &[u8]) -> (r: Option<usize>)
    ensures
        match r {
            Option::Some(n) => spec_expect(s@, i as int, lit@) == Option::Some(n as int) && i <= n
                <= s@.len(),
            Option::None => spec_expect(s@, i as int, lit@) is None,
        },
{
    if i <= s.len() && lit.len() <= s.len() - i {
        if crate::bytes::matches_at_exec(s, lit, i) {
            Option::Some(i + lit.len())
        } else {
            Option::None
        }
    } else {
        assert(!matches_at(s@, lit@, i as int));
        Option::None
    }
}

/// Reads a quoted string at `i`, executably.
fn parse_string(s: &[u8], i: usize) -> (r: Option<(Vec<u8>, usize)>)
    requires
        i <= s@.len(),
    ensures
        match r {
            Option::Some(p) => spec_parse_string(s@, i as int) == Option::Some(
                (p.0@, p.1 as int),
            ) && p.1 <= s@.len(),
            Option::None => spec_parse_string(s@, i as int) is None,
        },
{
    let n = s.len();
    if i >= n || s[i] != QUOTE {
        return Option::None;
    }
    let mut j: usize = i + 1;
    while j < n
        invariant
            i + 1 <= j <= n,
            n == s@.len(),
            s@[i as int] == QUOTE,
            spec_scan_string(s@, (i + 1) as int) == spec_scan_string(s@, j as int),
        decreases n - j,
    {
        if s[j] == QUOTE {
            let mut content: Vec<u8> = Vec::new();
            assert(content@ =~= s@.subrange(i + 1, i + 1));
            let mut k: usize = i + 1;
            while k < j
                invariant
                    i + 1 <= k <= j < n,
                    n == s@.len(),
                    content@ == s@.subrange((i + 1) as int, k as int),
                decreases j - k,
            {
                content.push(s[k]);
                assert(content@ =~= s@.subrange((i + 1) as int, (k + 1) as int));
                k = k + 1;
            }
            assert(spec_scan_string(s@, j as int) == Option::Some(j as int));
            return Option::Some((content, j + 1));
        }
        if s[j] == BACKSLASH {
            return Option::None;
        }
        j = j + 1;
    }
    Option::None
}

/// Reads a string or the literal `null` at `i`: `null` stands for an absent
/// value.
pub open spec fn spec_parse_opt_string(s: Seq<u8>, i: int) -> Option<(Option<Seq<u8>>, int)> {
    if matches_at(s, lit_null(), i) {
        Option::Some((Option::None, i + lit_null().len()))
    } else {
        match spec_parse_string(s, i) {
            Option::Some((v, j)) => Option::Some((Option::Some(v), j)),
            Option::None => Option::None,
        }
    }
}

fn null_bytes() -> (r: Vec<u8>)
    ensures
        r@ == lit_null(),
{
    let v: Vec<u8> = vec![110u8, 117u8, 108u8, 108u8];
    assert(v@ =~= lit_null());
    v
}

fn key_action_bytes() -> (r: Vec<u8>)
    ensures
        r@ == key_action(),
{
    let v: Vec<u8> = vec![34u8, 97u8, 99u8, 116u8, 105u8, 111u8, 110u8, 34u8];
    assert(v@ =~= key_action());
    v
}

fn key_redirect_bytes() -> (r: Vec<u8>)
    ensures
        r@ == key_redirect(),
{
    let v: Vec<u8> = vec![
        34u8,
        114u8,
        101u8,
        100u8,
        105u8,
        114u8,
        101u8,
        99u8,
        116u8,
        95u8,
        116u8,
        97u8,
        114u8,
        103u8,
        101u8,
        116u8,
        34u8,
    ];
    assert(v@ =~= key_redirect());
    v
}

fn key_artifact_bytes() -> (r: Vec<u8>)
    ensures
        r@ == key_artifact(),
{
    let v: Vec<u8> = vec![
        34u8,
        97u8,
        114u8,
        116u8,
        105u8,
        102u8,
        97u8,
        99u8,
        116u8,
        95u8,
        116u8,
        121u8,
        112u8,
        101u8,
        34u8,
    ];
    assert(v@ =~= key_artifact());
    v
}

fn key_threat_bytes() -> (r: Vec<u8>)
    ensures
        r@ == key_threat(),
{
    let v: Vec<u8> = vec![
        34u8,
        116u8,
        104u8,
        114u8,
        101u8,
        97u8,
        116u8,
        95u8,
        108u8,
        101u8,
        118u8,
        101u8,
        108u8,
        34u8,
    ];
    assert(v@ =~= key_threat());
    v
}

fn key_command_bytes() -> (r: Vec<u8>)
    ensures
        r@ == key_command(),
{
    let v: Vec<u8> = vec![34u8, 99u8, 111u8, 109u8, 109u8, 97u8, 110u8, 100u8, 34u8];
    assert(v@ =~= key_command());
    v
}

/// Reads a string or `null` at `i`, executably.
fn parse_opt_string(s: &[u8], i: usize) -> (r: Option<(Option<Vec<u8>>, usize)>)
    requires
        i <= s@.len(),
    ensures
        match r {
            Option::Some(p) => spec_parse_opt_string(s@, i as int) == Option::Some(
                (
                    match p.0 {
                        Option::Some(v) => Option::Some(v@),
                        Option::None => Option::None,
                    },
                    p.1 as int,
                ),
            ) && p.1 <= s@.len(),
            Option::None => spec_parse_opt_string(s@, i as int) is None,
        },
{
    let null_lit = null_bytes();
    match expect(s, i, null_lit.as_slice()) {
        Option::Some(n) => Option::Some((Option::None, n)),
        Option::None => {
            match parse_string(s, i) {
                Option::Some((v, j)) => Option::Some((Option::Some(v), j)),
                Option::None => Option::None,
            }
        },
    }
}

/// Reads a command object at the first non-whitespace position at or after
/// `i0`: a braced object holding an `action` string and, after a comma, an
/// optional `redirect_target` that is a string or `null`.
pub open spec fn spec_parse_command(s: Seq<u8>, i0: int) -> Option<(CommandModel, int)> {
    let i1 = spec_skip_ws(s, i0);
    if !(0 <= i1 < s.len() && s[i1] == LBRACE) {
        Option::None
    } else {
        let i2 = spec_skip_ws(s, i1 + 1);
        match spec_expect(s, i2, key_action()) {
            Option::None => Option::None,
            Option::Some(i3) => {
                let i4 = spec_skip_ws(s, i3);
                if !(0 <= i4 < s.len() && s[i4] == COLON) {
                    Option::None
                } else {
                    let i5 = spec_skip_ws(s, i4 + 1);
                    match spec_parse_string(s, i5) {
                        Option::None => Option::None,
                        Option::Some((act, i6)) => {
                            let i7 = spec_skip_ws(s, i6);
                            if 0 <= i7 < s.len() && s[i7] == COMMA {
                                let i8 = spec_skip_ws(s, i7 + 1);
                                match spec_expect(s, i8, key_redirect()) {
                                    Option::None => Option::None,
                                    Option::Some(i9) => {
                                        let i10 = spec_skip_ws(s, i9);
                                        if !(0 <= i10 < s.len() && s[i10] == COLON) {
                                            Option::None
                                        } else {
                                            let i11 = spec_skip_ws(s, i10 + 1);
                                            match spec_parse_opt_string(s, i11) {
                                                Option::None => Option::None,
                                                Option::Some((rt, i12)) => {
                                                    let i13 = spec_skip_ws(s, i12);
                                                    if 0 <= i13 < s.len() && s[i13] == RBRACE {
                                                        Option::Some(
                                                            (
                                                                CommandModel {
                                                                    action: act,
                                                                    redirect_target: rt,
                                                                },
                                                                i13 + 1,
                                                            ),
                                                        )
                                                    } else {
                                                        Option::None
                                                    }
                                                },
                                            }
                                        }
                                    },
                                }
                            } else if 0 <= i7 < s.len() && s[i7] == RBRACE {
                                Option::Some(
                                    (
                                        CommandModel { action: act, redirect_target: Option::None },
                                        i7 + 1,
                                    ),
                                )
                            } else {
                                Option::None
                            }
                        },
                    }
                }
            },
        }
    }
}

/// Reads a command object, executably.
pub fn parse_command(s: &[u8], i0: usize) -> (r: Option<(Command, usize)>)
    requires
        i0 <= s@.len(),
    ensures
        match r {
            Option::Some(p) => spec_parse_command(s@, i0 as int) == Option::Some(
                (p.0@, p.1 as int),
            ) && p.1 <= s@.len(),
            Option::None => spec_parse_command(s@, i0 as int) is None,
        },
{
    let n = s.len();
    let i1 = skip_ws(s, i0);
    if !at_byte(s, i1, LBRACE) {
        return Option::None;
    }
    let i2 = skip_ws(s, i1 + 1);
    let action_key = key_action_bytes();
    let i3 = match expect(s, i2, action_key.as_slice()) {
        Option::Some(n) => n,
        Option::None => {
            return Option::None;
        },
    };
    let i4 = skip_ws(s, i3);
    if !at_byte(s, i4, COLON) {
        return Option::None;
    }
    let i5 = skip_ws(s, i4 + 1);
    let (act, i6) = match parse_string(s, i5) {
        Option::Some(p) => p,
        Option::None => {
            return Option::None;
        },
    };
    let i7 = skip_ws(s, i6);
    if at_byte(s, i7, COMMA) {
        let i8 = skip_ws(s, i7 + 1);
        let redirect_key = key_redirect_bytes();
        let i9 = match expect(s, i8, redirect_key.as_slice()) {
            Option::Some(n) => n,
            Option::None => {
                return Option::None;
            },
        };
        let i10 = skip_ws(s, i9);
        if !at_byte(s, i10, COLON) {
            return Option::None;
        }
        let i11 = skip_ws(s, i10 + 1);
        let (rt, i12) = match parse_opt_string(s, i11) {
            Option::Some(p) => p,
            Option::None => {
                return Option::None;
            },
        };
        let i13 = skip_ws(s, i12);
        if at_byte(s, i13, RBRACE) {
            Option::Some((Command { action: act, redirect_target: rt }, i13 + 1))
        } else {
            Option::None
        }
    } else if at_byte(s, i7, RBRACE) {
        Option::Some((Command { action: act, redirect_target: Option::None }, i7 + 1))
    } else {
        Option::None
    }
}

/// Reads one optional leading member (`"key" : "value" ,`) at `j`. When the
/// key is absent the value is the empty string and the position is unmoved.
pub open spec fn spec_parse_lead_member(s: Seq<u8>, j: int, key: Seq<u8>) -> Option<
    (Seq<u8>, int),
> {
    if matches_at(s, key, j) {
        let a = spec_skip_ws(s, j + key.len());
        if !(0 <= a < s.len() && s[a] == COLON) {
            Option::None
        } else {
            let b = spec_skip_ws(s, a + 1);
            match spec_parse_string(s, b) {
                Option::None => Option::None,
                Option::Some((v, c)) => {
                    let d = spec_skip_ws(s, c);
                    if 0 <= d < s.len() && s[d] == COMMA {
                        Option::Some((v, spec_skip_ws(s, d + 1)))
                    } else {
                        Option::None
                    }
                },
            }
        }
    } else {
        Option::Some((Seq::empty(), j))
    }
}

/// Reads one optional leading member, executably.
fn parse_lead_member(s: &[u8], j: usize, key: &[u8]) -> (r: Option<(Vec<u8>, usize)>)
    requires
        j <= s@.len(),
    ensures
        match r {
            Option::Some(p) => spec_parse_lead_member(s@, j as int, key@) == Option::Some(
                (p.0@, p.1 as int),
            ) && p.1 <= s@.len(),
            Option::None => spec_parse_lead_member(s@, j as int, key@) is None,
        },
{
    let n = s.len();
    let a0 = match expect(s, j, key) {
        Option::Some(n) => n,
        Option::None => {
            let empty: Vec<u8> = Vec::new();
            assert(empty@ =~= Seq::<u8>::empty());
            return Option::Some((empty, j));
        },
    };
    let a = skip_ws(s, a0);
    if !at_byte(s, a, COLON) {
        return Option::None;
    }
    let b = skip_ws(s, a + 1);
    let (v, c) = match parse_string(s, b) {
        Option::Some(p) => p,
        Option::None => {
            return Option::None;
        },
    };
    let d = skip_ws(s, c);
    if at_byte(s, d, COMMA) {
        let e = skip_ws(s, d + 1);
        Option::Some((v, e))
    } else {
        Option::None
    }
}

/// Reads a whole judgment document: a braced object holding, in order, an
/// optional `artifact_type` string, an optional `threat_level` string (each
/// defaulting to empty), and a mandatory `command` object, with nothing but
/// whitespace after the closing brace. Anything else is no verdict.
pub open spec fn spec_parse_verdict(s: Seq<u8>) -> Option<VerdictModel> {
    let i1 = spec_skip_ws(s, 0);
    if !(0 <= i1 < s.len() && s[i1] == LBRACE) {
        Option::None
    } else {
        let i2 = spec_skip_ws(s, i1 + 1);
        match spec_parse_lead_member(s, i2, key_artifact()) {
            Option::None => Option::None,
            Option::Some((at, i3)) => {
                match spec_parse_lead_member(s, i3, key_threat()) {
                    Option::None => Option::None,
                    Option::Some((tl, i4)) => {
                        match spec_expect(s, i4, key_command()) {
                            Option::None => Option::None,
                            Option::Some(i5) => {
                                let i6 = spec_skip_ws(s, i5);
                                if !(0 <= i6 < s.len() && s[i6] == COLON) {
                                    Option::None
                                } else {
                                    match spec_parse_command(s, i6 + 1) {
                                        Option::None => Option::None,
                                        Option::Some((c, i7)) => {
                                            let i8 = spec_skip_ws(s, i7);
                                            if 0 <= i8 < s.len() && s[i8] == RBRACE
                                                && spec_skip_ws(s, i8 + 1) == s.len() {
                                                Option::Some(
                                                    VerdictModel {
                                                        artifact_type: at,
                                                        threat_level: tl,
                                                        command: c,
                                                    },
                                                )
                                            } else {
                                                Option::None
                                            }
                                        },
                                    }
                                }
                            },
                        }
                    },
                }
            },
        }
    }
}

/// Reads a whole judgment document, executably.
pub fn parse_verdict(s: &[u8]) -> (r: Option<Verdict>)
    ensures
        match r {
            Option::Some(v) => spec_parse_verdict(s@) == Option::Some(v@),
            Option::None => spec_parse_verdict(s@) is None,
        },
{
    let n = s.len();
    let i1 = skip_ws(s, 0);
    if !at_byte(s, i1, LBRACE) {
        return Option::None;
    }
    let i2 = skip_ws(s, i1 + 1);
    let artifact_key = key_artifact_bytes();
    let (at, i3) = match parse_lead_member(s, i2, artifact_key.as_slice()) {
        Option::Some(p) => p,
        Option::None => {
            return Option::None;
        },
    };
    let threat_key = key_threat_bytes();
    let (tl, i4) = match parse_lead_member(s, i3, threat_key.as_slice()) {
        Option::Some(p) => p,
        Option::None => {
            return Option::None;
        },
    };
    let command_key = key_command_bytes();
    let i5 = match expect(s, i4, command_key.as_slice()) {
        Option::Some(n2) => n2,
        Option::None => {
            return Option::None;
        },
    };
    let i6 = skip_ws(s, i5);
    if !at_byte(s, i6, COLON) {
        return Option::None;
    }
    let (c, i7) = match parse_command(s, i6 + 1) {
        Option::Some(p) => p,
        Option::None => {
            return Option::None;
        },
    };
    let i8 = skip_ws(s, i7);
    if !at_byte(s, i8, RBRACE) {
        return Option::None;
    }
    let i9 = skip_ws(s, i8 + 1);
    if i9 == n {
        Option::Some(Verdict { artifact_type: at, threat_level: tl, command: c })
    } else {
        Option::None
    }
}

/// True iff `s` holds no byte that JSON string syntax treats specially
/// (no quote and no backslash), so that it reads back verbatim.
pub open spec fn plain_text(s: Seq<u8>) -> bool {
    forall|k: int| 0 <= k < s.len() ==> s[k] != QUOTE && s[k] != BACKSLASH
}

/// A string value: its content between two quotes, written verbatim.
pub open spec fn spec_json_string(content: Seq<u8>) -> Seq<u8> {
    seq![QUOTE] + content + seq![QUOTE]
}

/// The written form of a command: `{"action":a,"redirect_target":t}`, with
/// `null` for an absent target. String contents are written verbatim, so a
/// command whose strings are `plain_text` round-trips through the reader.
pub open spec fn spec_serialize_command(c: CommandModel) -> Seq<u8> {
    seq![LBRACE] + key_action() + seq![COLON] + spec_json_string(c.action) + seq![COMMA]
        + key_redirect() + seq![COLON] + (match c.redirect_target {
        Option::Some(t) => spec_json_string(t),
        Option::None => lit_null(),
    }) + seq![RBRACE]
}

/// Writes a command in the judgment service's wire shape.
pub fn serialize_command(c: &Command) -> (r: Vec<u8>)
    ensures
        r@ == spec_serialize_command(c@),
{
    let mut out: Vec<u8> = Vec::new();
    out.push(LBRACE);
    let action_key = key_action_bytes();
    out.extend_from_slice(action_key.as_slice());
    out.push(COLON);
    out.push(QUOTE);
    out.extend_from_slice(c.action.as_slice());
    out.push(QUOTE);
    out.push(COMMA);
    let redirect_key = key_redirect_bytes();
    out.extend_from_slice(redirect_key.as_slice());
    out.push(COLON);
    match &c.redirect_target {
        Option::Some(t) => {
            out.push(QUOTE);
            out.extend_from_slice(t.as_slice());
            out.push(QUOTE);
        },
        Option::None => {
            let null_lit = null_bytes();
            out.extend_from_slice(null_lit.as_slice());
        },
    }
    out.push(RBRACE);
    assert(out@ =~= spec_serialize_command(c@));
    out
}

/// How one byte is written inside a JSON string: quotes and backslashes get
/// a backslash before them, every other byte stands as it is.
pub open spec fn escape_byte(b: u8) -> Seq<u8> {
    if b == QUOTE || b == BACKSLASH {
        seq![BACKSLASH, b]
    } else {
        seq![b]
    }
}

/// The escaped form of a whole byte string.
pub open spec fn spec_escaped(s: Seq<u8>) -> Seq<u8>
    decreases s.len(),
{
    if s.len() == 0 {
        Seq::empty()
    } else {
        spec_escaped(s.drop_last()) + escape_byte(s.last())
    }
}

/// Escapes a byte string for use inside a JSON string value.
fn escaped_bytes(s: &[u8]) -> (r: Vec<u8>)
    ensures
        r@ == spec_escaped(s@),
{
    let n = s.len();
    let mut out: Vec<u8> = Vec::new();
    assert(out@ =~= spec_escaped(s@.subrange(0, 0)));
    let mut k: usize = 0;
    while k < n
        invariant
            k <= n,
            n == s@.len(),
            out@ == spec_escaped(s@.subrange(0, k as int)),
        decreases n - k,
    {
        let b = s[k];
        if b == QUOTE || b == BACKSLASH {
            out.push(BACKSLASH);
            out.push(b);
        } else {
            out.push(b);
        }
        proof {
            assert(s@.subrange(0, (k + 1) as int).drop_last() =~= s@.subrange(0, k as int));
            assert(s@.subrange(0, (k + 1) as int).last() == s@[k as int]);
        }
        assert(out@ =~= spec_escaped(s@.subrange(0, (k + 1) as int)));
        k = k + 1;
    }
    assert(s@.subrange(0, n as int) =~= s@);
    out
}

/// The quoted key `"trace"`.
pub open spec fn key_trace() -> Seq<u8> {
    seq![34u8, 116u8, 114u8, 97u8, 99u8, 101u8, 34u8]
}

/// The quoted key `"slm_score"`.
pub open spec fn key_slm() -> Seq<u8> {
    seq![34u8, 115u8, 108u8, 109u8, 95u8, 115u8, 99u8, 111u8, 114u8, 101u8, 34u8]
}

/// The fixed confidence score `0.9`, as it is written on the wire.
pub open spec fn lit_score() -> Seq<u8> {
    seq![48u8, 46u8, 57u8]
}

/// The escalation request body: `{"trace":"<trace>","slm_score":0.9}`, with
/// the trace text escaped.
pub open spec fn spec_escalation_payload(trace: Seq<u8>) -> Seq<u8> {
    seq![LBRACE] + key_trace() + seq![COLON] + seq![QUOTE] + spec_escaped(trace) + seq![QUOTE]
        + seq![COMMA] + key_slm() + seq![COLON] + lit_score() + seq![RBRACE]
}

/// Writes the escalation request body for a suspicion trace.
pub fn build_escalation_payload(trace: &[u8]) -> (r: Vec<u8>)
    ensures
        r@ == spec_escalation_payload(trace@),
{
    let trace_key: Vec<u8> = vec![34u8, 116u8, 114u8, 97u8, 99u8, 101u8, 34u8];
    assert(trace_key@ =~= key_trace());
    let slm_key: Vec<u8> = vec![34u8, 115u8, 108u8, 109u8, 95u8, 115u8, 99u8, 111u8, 114u8, 101u8, 34u8];
    assert(slm_key@ =~= key_slm());
    let score: Vec<u8> = vec![48u8, 46u8, 57u8];
    assert(score@ =~= lit_score());
    let mut out: Vec<u8> = Vec::new();
    out.push(LBRACE);
    out.extend_from_slice(trace_key.as_slice());
    out.push(COLON);
    out.push(QUOTE);
    let escaped = escaped_bytes(trace);
    out.extend_from_slice(escaped.as_slice());
    out.push(QUOTE);
    out.push(COMMA);
    out.extend_from_slice(slm_key.as_slice());
    out.push(COLON);
    out.extend_from_slice(score.as_slice());
    out.push(RBRACE);
    assert(out@ =~= spec_escalation_payload(trace@));
    out
}

/// A scan that starts inside plain text ends at the first quote after it.
proof fn lemma_scan_over_plain(s: Seq<u8>, j: int, e: int)
    requires
        0 <= j <= e < s.len(),
        s[e] == QUOTE,
        forall|x: int| j <= x < e ==> s[x] != QUOTE && s[x] != BACKSLASH,
    ensures
        spec_scan_string(s, j) == Option::Some(e),
    decreases e - j,
{
    if j < e {
        lemma_scan_over_plain(s, j + 1, e);
    }
}

/// Round trip: writing a command whose redirect target is absent and whose
/// action is plain text, then reading it back, yields the very command, with
/// the action unchanged and the target still absent, and consumes the whole
/// document.
pub proof fn lemma_command_round_trip(c: CommandModel)
    requires
        plain_text(c.action),
        c.redirect_target is None,
    ensures
        spec_parse_command(spec_serialize_command(c), 0) == Option::Some(
            (c, spec_serialize_command(c).len() as int),
        ),
{
    let s = spec_serialize_command(c);
    let al = c.action.len() as int;
    assert(s.len() == 36 + al);
    assert(s[0] == LBRACE);
    assert(s.subrange(1, 9) =~= key_action());
    assert(matches_at(s, key_action(), 1));
    assert(s[9] == COLON);
    assert(s[10] == QUOTE);
    assert(forall|x: int| 11 <= x < 11 + al ==> s[x] == c.action[x - 11]);
    assert(s[11 + al] == QUOTE);
    lemma_scan_over_plain(s, 11, 11 + al);
    assert(s.subrange(11, 11 + al) =~= c.action);
    assert(spec_parse_string(s, 10) == Option::Some((c.action, 12 + al)));
    assert(s[12 + al] == COMMA);
    assert(s.subrange(13 + al, 30 + al) =~= key_redirect());
    assert(matches_at(s, key_redirect(), 13 + al));
    assert(s[30 + al] == COLON);
    assert(s.subrange(31 + al, 35 + al) =~= lit_null());
    assert(matches_at(s, lit_null(), 31 + al));
    assert(s[35 + al] == RBRACE);
    assert(spec_parse_opt_string(s, 31 + al) == Option::Some(
        (Option::<Seq<u8>>::None, 35 + al),
    ));
    assert(spec_parse_command(s, 0) == Option::Some((c, 36 + al)));
}

/// Round trip, target present: writing a command whose action and redirect
/// target are plain text, then reading it back, yields the very command and
/// consumes the whole document.
pub proof fn lemma_command_round_trip_with_target(c: CommandModel, t: Seq<u8>)
    requires
        plain_text(c.action),
        c.redirect_target == Option::Some(t),
        plain_text(t),
    ensures
        spec_parse_command(spec_serialize_command(c), 0) == Option::Some(
            (c, spec_serialize_command(c).len() as int),
        ),
{
    let s = spec_serialize_command(c);
    let al = c.action.len() as int;
    let tl = t.len() as int;
    assert(s.len() == 34 + al + tl);
    assert(s[0] == LBRACE);
    assert(s.subrange(1, 9) =~= key_action());
    assert(matches_at(s, key_action(), 1));
    assert(s[9] == COLON);
    assert(s[10] == QUOTE);
    assert(forall|x: int| 11 <= x < 11 + al ==> s[x] == c.action[x - 11]);
    assert(s[11 + al] == QUOTE);
    lemma_scan_over_plain(s, 11, 11 + al);
    assert(s.subrange(11, 11 + al) =~= c.action);
    assert(spec_parse_string(s, 10) == Option::Some((c.action, 12 + al)));
    assert(s[12 + al] == COMMA);
    assert(s.subrange(13 + al, 30 + al) =~= key_redirect());
    assert(matches_at(s, key_redirect(), 13 + al));
    assert(s[30 + al] == COLON);
    assert(s[31 + al] == QUOTE);
    if matches_at(s, lit_null(), 31 + al) {
        assert(s.subrange(31 + al, 35 + al)[0] == lit_null()[0]);
        assert(false);
    }
    assert(forall|x: int| 32 + al <= x < 32 + al + tl ==> s[x] == t[x - 32 - al]);
    assert(s[32 + al + tl] == QUOTE);
    lemma_scan_over_plain(s, 32 + al, 32 + al + tl);
    assert(s.subrange(32 + al, 32 + al + tl) =~= t);
    assert(spec_parse_string(s, 31 + al) == Option::Some((t, 33 + al + tl)));
    assert(spec_parse_opt_string(s, 31 + al) == Option::Some(
        (Option::Some(t), 33 + al + tl),
    ));
    assert(s[33 + al + tl] == RBRACE);
    assert(spec_parse_command(s, 0) == Option::Some((c, 34 + al + tl)));
}

} // verus!

