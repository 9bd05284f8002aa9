//! Configuration parsing.
//!
//! A configuration is ASCII text of whitespace-delimited `key value` lines,
//! one property per line, unordered, each key at most once.  The keys are
//! `shader_dir` (a path), `grid_size` and `num_params` (unsigned integers),
//! and `scale` and `speed` (plain decimals with up to six fractional digits,
//! parsed exactly into micro-units).  Every fault — a blank line, a key
//! without a value, a third token, an unknown or duplicate key, an
//! unparsable value, a missing key — is an error naming the offending line
//! or key; the caller treats each as fatal.

use vstd::prelude::*;
use vstd::string::StringSliceAdditionalSpecFns;

verus! {

/// The recognized configuration keys.
#[derive(Clone, Copy, PartialEq, Eq, Structural, Debug)]
pub enum ConfigKey {
    ShaderDir,
    GridSize,
    Scale,
    Speed,
    NumParams,
}

/// Why a configuration was rejected; all are fatal to the caller.
/// Line numbers count from zero.
#[derive(Clone, Copy, PartialEq, Eq, Structural, Debug)]
pub enum ConfigError {
    /// A line with no tokens at all.
    EmptyLine(usize),
    /// A key with no value after it.
    MissingValue(usize),
    /// More than two tokens on one line.
    ExtraToken(usize),
    /// A key that is none of the five recognized ones.
    UnknownKey(usize),
    /// A key given twice.
    DuplicateKey(ConfigKey),
    /// A numeric value that does not parse or is out of range.
    BadValue(ConfigKey),
    /// A required key that never appeared.
    MissingKey(ConfigKey),
}

/// The parsed configuration.  `scale` and `speed` are exact micro-units
/// (1_000_000 is 1.0); `shader_dir` is the path's bytes as given.
#[derive(Debug, PartialEq, Eq)]
pub struct Config {
    pub shader_dir: Vec<u8>,
    pub grid_size: u32,
    pub scale_micro: u64,
    pub speed_micro: u64,
    pub num_params: u32,
}

/// The mathematical model of a parsed configuration.
pub struct ConfigModel {
    pub shader_dir: Seq<u8>,
    pub grid_size: u32,
    pub scale_micro: u64,
    pub speed_micro: u64,
    pub num_params: u32,
}

/// Largest integer part of a decimal value: keeps every parsed value in
/// micro-units within 64 bits.
pub const DECIMAL_INT_MAX: u64 = 18_446_744_073_708;

// --- lines ---------------------------------------------------------------

/// Split at every newline, the bytes read so far in `cur`.
pub open spec fn spec_lines_acc(s: Seq<u8>, cur: Seq<u8>) -> Seq<Seq<u8>>
    decreases s.len(),
{
    if s.len() == 0 {
        seq![cur]
    } else if s[0] == 10u8 {
        seq![cur] + spec_lines_acc(s.subrange(1, s.len() as int), Seq::empty())
    } else {
        spec_lines_acc(s.subrange(1, s.len() as int), cur.push(s[0]))
    }
}

/// The lines of the text: newline-separated, without the empty line a
/// trailing newline would otherwise produce.
pub open spec fn spec_lines(s: Seq<u8>) -> Seq<Seq<u8>> {
    let ls = spec_lines_acc(s, Seq::empty());
    if ls.last().len() == 0 {
        ls.drop_last()
    } else {
        ls
    }
}

// --- tokens ---------------------------------------------------------------

/// Space, tab and carriage return separate tokens within a line.
pub open spec fn is_ws(b: u8) -> bool {
    b == 32u8 || b == 9u8 || b == 13u8
}

/// Split a line at whitespace runs, the token read so far in `cur`.
pub open spec fn spec_tokens_acc(s: Seq<u8>, cur: Seq<u8>) -> Seq<Seq<u8>>
    decreases s.len(),
{
    if s.len() == 0 {
        if cur.len() == 0 {
            Seq::empty()
        } else {
            seq![cur]
        }
    } else if is_ws(s[0]) {
        if cur.len() == 0 {
            spec_tokens_acc(s.subrange(1, s.len() as int), Seq::empty())
        } else {
            seq![cur] + spec_tokens_acc(s.subrange(1, s.len() as int), Seq::empty())
        }
    } else {
        spec_tokens_acc(s.subrange(1, s.len() as int), cur.push(s[0]))
    }
}

/// The whitespace-delimited tokens of a line.
pub open spec fn spec_tokens(s: Seq<u8>) -> Seq<Seq<u8>> {
    spec_tokens_acc(s, Seq::empty())
}

// --- numbers ---------------------------------------------------------------

/// An ASCII decimal digit.
pub open spec fn is_digit(b: u8) -> bool {
    48 <= b <= 57
}

/// Every byte is a digit.
pub open spec fn all_digits(s: Seq<u8>) -> bool {
    forall|i: int| 0 <= i < s.len() ==> is_digit(#[trigger] s[i])
}

/// The value of a digit string, most significant first.
pub open spec fn digits_val(s: Seq<u8>) -> int
    decreases s.len(),
{
    if s.len() == 0 {
        0
    } else {
        digits_val(s.drop_last()) * 10 + (s.last() - 48)
    }
}

/// Powers of ten.
pub open spec fn pow10(k: int) -> int
    decreases k,
{
    if k <= 0 {
        1
    } else {
        10 * pow10(k - 1)
    }
}

/// The index of the first `.` in `s` at or after `i`, or -1.
pub open spec fn first_dot(s: Seq<u8>, i: int) -> int
    decreases s.len() - i,
{
    if i < 0 || i >= s.len() {
        -1
    } else if s[i] == 46u8 {
        i
    } else {
        first_dot(s, i + 1)
    }
}

/// An unsigned integer token: non-empty, all digits, within `u32`.
pub open spec fn spec_parse_u32(s: Seq<u8>) -> Option<u32> {
    if s.len() > 0 && all_digits(s) && digits_val(s) <= u32::MAX {
        Some(digits_val(s) as u32)
    } else {
        None
    }
}

/// A decimal token, exactly in micro-units: digits, optionally followed by
/// a dot and one to six fractional digits, the integer part at most
/// `DECIMAL_INT_MAX`.
pub open spec fn spec_parse_micro(s: Seq<u8>) -> Option<u64> {
    let j = first_dot(s, 0);
    if j < 0 {
        if s.len() > 0 && all_digits(s) && digits_val(s) <= DECIMAL_INT_MAX {
            Some((digits_val(s) * 1_000_000) as u64)
        } else {
            None
        }
    } else {
        let ip = s.take(j);
        let fp = s.subrange(j + 1, s.len() as int);
        if ip.len() > 0 && all_digits(ip) && digits_val(ip) <= DECIMAL_INT_MAX && 1 <= fp.len() <= 6
            && all_digits(fp) {
            Some((digits_val(ip) * 1_000_000 + digits_val(fp) * pow10(6 - fp.len())) as u64)
        } else {
            None
        }
    }
}

// --- the key-value fold -----------------------------------------------------

/// Which key a token names, if any.
pub open spec fn spec_key_of(tok: Seq<u8>) -> Option<ConfigKey> {
    if tok == "shader_dir".spec_bytes() {
        Some(ConfigKey::ShaderDir)
    } else if tok == "grid_size".spec_bytes() {
        Some(ConfigKey::GridSize)
    } else if tok == "scale".spec_bytes() {
        Some(ConfigKey::Scale)
    } else if tok == "speed".spec_bytes() {
        Some(ConfigKey::Speed)
    } else if tok == "num_params".spec_bytes() {
        Some(ConfigKey::NumParams)
    } else {
        None
    }
}

/// The properties collected so far.
pub struct PartialConfig {
    pub shader_dir: Option<Seq<u8>>,
    pub grid_size: Option<u32>,
    pub scale_micro: Option<u64>,
    pub speed_micro: Option<u64>,
    pub num_params: Option<u32>,
}

/// The empty collection.
pub open spec fn spec_empty_partial() -> PartialConfig {
    PartialConfig {
        shader_dir: None,
        grid_size: None,
        scale_micro: None,
        speed_micro: None,
        num_params: None,
    }
}

/// One line applied to the collected properties: exactly two tokens, a
/// known key seen for the first time, a value its key can parse.
pub open spec fn spec_line_step(toks: Seq<Seq<u8>>, st: PartialConfig, lineno: int) -> Result<
    PartialConfig,
    ConfigError,
> {
    if toks.len() == 0 {
        Err(ConfigError::EmptyLine(lineno as usize))
    } else if toks.len() == 1 {
        Err(ConfigError::MissingValue(lineno as usize))
    } else if toks.len() > 2 {
        Err(ConfigError::ExtraToken(lineno as usize))
    } else {
        match spec_key_of(toks[0]) {
            None => Err(ConfigError::UnknownKey(lineno as usize)),
            Some(ConfigKey::ShaderDir) => if st.shader_dir is Some {
                Err(ConfigError::DuplicateKey(ConfigKey::ShaderDir))
            } else {
                Ok(PartialConfig { shader_dir: Some(toks[1]), ..st })
            },
            Some(ConfigKey::GridSize) => if st.grid_size is Some {
                Err(ConfigError::DuplicateKey(ConfigKey::GridSize))
            } else {
                match spec_parse_u32(toks[1]) {
                    None => Err(ConfigError::BadValue(ConfigKey::GridSize)),
                    Some(v) => Ok(PartialConfig { grid_size: Some(v), ..st }),
                }
            },
            Some(ConfigKey::Scale) => if st.scale_micro is Some {
                Err(ConfigError::DuplicateKey(ConfigKey::Scale))
            } else {
                match spec_parse_micro(toks[1]) {
                    None => Err(ConfigError::BadValue(ConfigKey::Scale)),
                    Some(v) => Ok(PartialConfig { scale_micro: Some(v), ..st }),
                }
            },
            Some(ConfigKey::Speed) => if st.speed_micro is Some {
                Err(ConfigError::DuplicateKey(ConfigKey::Speed))
            } else {
                match spec_parse_micro(toks[1]) {
                    None => Err(ConfigError::BadValue(ConfigKey::Speed)),
                    Some(v) => Ok(PartialConfig { speed_micro: Some(v), ..st }),
                }
            },
            Some(ConfigKey::NumParams) => if st.num_params is Some {
                Err(ConfigError::DuplicateKey(ConfigKey::NumParams))
            } else {
                match spec_parse_u32(toks[1]) {
                    None => Err(ConfigError::BadValue(ConfigKey::NumParams)),
                    Some(v) => Ok(PartialConfig { num_params: Some(v), ..st }),
                }
            },
        }
    }
}

/// All lines applied in order, stopping at the first fault.
pub open spec fn spec_fold_lines(lines: Seq<Seq<u8>>, st: PartialConfig, lineno: int) -> Result<
    PartialConfig,
    ConfigError,
>
    decreases lines.len(),
{
    if lines.len() == 0 {
        Ok(st)
    } else {
        match spec_line_step(spec_tokens(lines[0]), st, lineno) {
            Err(e) => Err(e),
            Ok(st2) => spec_fold_lines(lines.subrange(1, lines.len() as int), st2, lineno + 1),
        }
    }
}

/// The missing-key check, in the order the properties are consumed.
pub open spec fn spec_complete(st: PartialConfig) -> Result<ConfigModel, ConfigError> {
    if st.shader_dir is None {
        Err(ConfigError::MissingKey(ConfigKey::ShaderDir))
    } else if st.grid_size is None {
        Err(ConfigError::MissingKey(ConfigKey::GridSize))
    } else if st.scale_micro is None {
        Err(ConfigError::MissingKey(ConfigKey::Scale))
    } else if st.speed_micro is None {
        Err(ConfigError::MissingKey(ConfigKey::Speed))
    } else if st.num_params is None {
        Err(ConfigError::MissingKey(ConfigKey::NumParams))
    } else {
        Ok(
            ConfigModel {
                shader_dir: st.shader_dir.unwrap(),
                grid_size: st.grid_size.unwrap(),
                scale_micro: st.scale_micro.unwrap(),
                speed_micro: st.speed_micro.unwrap(),
                num_params: st.num_params.unwrap(),
            },
        )
    }
}

/// What parsing a whole configuration text yields.
pub open spec fn spec_read_config(text: Seq<u8>) -> Result<ConfigModel, ConfigError> {
    match spec_fold_lines(spec_lines(text), spec_empty_partial(), 0) {
        Err(e) => Err(e),
        Ok(st) => spec_complete(st),
    }
}

/// The parsed configuration matches its model.
pub open spec fn config_matches(c: Config, m: ConfigModel) -> bool {
    &&& c.shader_dir@ == m.shader_dir
    &&& c.grid_size == m.grid_size
    &&& c.scale_micro == m.scale_micro
    &&& c.speed_micro == m.speed_micro
    &&& c.num_params == m.num_params
}

/// Parse a configuration text: exactly `spec_read_config`, value and error.
pub fn read_config(text: &[u8]) -> (r: Result<Config, ConfigError>)
    ensures
        match r {
            Ok(c) => spec_read_config(text@) is Ok && config_matches(
                c,
                spec_read_config(text@).unwrap(),
            ),
            Err(e) => spec_read_config(text@) == Result::<ConfigModel, ConfigError>::Err(e),
        },
{
    let lines = split_lines(text);
    let ghost all_lines = spec_lines(text@);
    let mut shader_dir: Option<Vec<u8>> = None;
    let mut grid_size: Option<u32> = None;
    let mut scale_micro: Option<u64> = None;
    let mut speed_micro: Option<u64> = None;
    let mut num_params: Option<u32> = None;
    let mut j: usize = 0;
    proof {
        assert(all_lines.subrange(0, all_lines.len() as int) =~= all_lines);
    }
    while j < lines.len()
        invariant
            lines.deep_view() == all_lines,
            all_lines == spec_lines(text@),
            j <= lines.len(),
            spec_fold_lines(all_lines, spec_empty_partial(), 0) == spec_fold_lines(
                all_lines.subrange(j as int, all_lines.len() as int),
                PartialConfig {
                    shader_dir: shader_dir.deep_view(),
                    grid_size: grid_size,
                    scale_micro: scale_micro,
                    speed_micro: speed_micro,
                    num_params: num_params,
                },
                j as int,
            ),
        decreases lines.len() - j,
    {
        let ghost st = PartialConfig {
            shader_dir: shader_dir.deep_view(),
            grid_size: grid_size,
            scale_micro: scale_micro,
            speed_micro: speed_micro,
            num_params: num_params,
        };
        let ghost rest = all_lines.subrange(j as int, all_lines.len() as int);
        proof {
            assert(rest[0] == all_lines[j as int]);
            assert(rest.subrange(1, rest.len() as int) =~= all_lines.subrange(
                j as int + 1,
                all_lines.len() as int,
            ));
        }
        let toks = split_tokens(&lines[j]);
        proof {
            assert(lines@[j as int].deep_view() =~= lines@[j as int]@);
            assert(all_lines[j as int] == lines@[j as int]@);
            assert(toks.deep_view() == spec_tokens(rest[0]));
            if toks@.len() > 0 {
                assert(toks.deep_view()[0] == toks@[0].deep_view());
                assert(toks@[0].deep_view() =~= toks@[0]@);
            }
            if toks@.len() > 1 {
                assert(toks.deep_view()[1] == toks@[1].deep_view());
                assert(toks@[1].deep_view() =~= toks@[1]@);
            }
        }
        if toks.len() == 0 {
            return Err(ConfigError::EmptyLine(j));
        }
        if toks.len() == 1 {
            return Err(ConfigError::MissingValue(j));
        }
        if toks.len() > 2 {
            return Err(ConfigError::ExtraToken(j));
        }
        let key = match key_of(&toks[0]) {
            None => {
                return Err(ConfigError::UnknownKey(j));
            },
            Some(k) => k,
        };
        match key {
            ConfigKey::ShaderDir => {
                if shader_dir.is_some() {
                    return Err(ConfigError::DuplicateKey(ConfigKey::ShaderDir));
                }
                let mut toks = toks;
                let value = toks.remove(1);
                proof {
                    assert(value.deep_view() =~= value@);
                }
                shader_dir = Some(value);
            },
            ConfigKey::GridSize => {
                if grid_size.is_some() {
                    return Err(ConfigError::DuplicateKey(ConfigKey::GridSize));
                }
                match parse_u32(&toks[1]) {
                    None => {
                        return Err(ConfigError::BadValue(ConfigKey::GridSize));
                    },
                    Some(v) => {
                        grid_size = Some(v);
                    },
                }
            },
            ConfigKey::Scale => {
                if scale_micro.is_some() {
                    return Err(ConfigError::DuplicateKey(ConfigKey::Scale));
                }
                match parse_micro(&toks[1]) {
                    None => {
                        return Err(ConfigError::BadValue(ConfigKey::Scale));
                    },
                    Some(v) => {
                        scale_micro = Some(v);
                    },
                }
            },
            ConfigKey::Speed => {
                if speed_micro.is_some() {
                    return Err(ConfigError::DuplicateKey(ConfigKey::Speed));
                }
                match parse_micro(&toks[1]) {
                    None => {
                        return Err(ConfigError::BadValue(ConfigKey::Speed));
                    },
                    Some(v) => {
                        speed_micro = Some(v);
                    },
                }
            },
            ConfigKey::NumParams => {
                if num_params.is_some() {
                    return Err(ConfigError::DuplicateKey(ConfigKey::NumParams));
                }
                match parse_u32(&toks[1]) {
                    None => {
                        return Err(ConfigError::BadValue(ConfigKey::NumParams));
                    },
                    Some(v) => {
                        num_params = Some(v);
                    },
                }
            },
        }
        j = j + 1;
    }
    let ghost stf = PartialConfig {
        shader_dir: shader_dir.deep_view(),
        grid_size: grid_size,
        scale_micro: scale_micro,
        speed_micro: speed_micro,
        num_params: num_params,
    };
    proof {
        assert(all_lines.subrange(all_lines.len() as int, all_lines.len() as int) =~= Seq::empty());
        assert(spec_fold_lines(all_lines, spec_empty_partial(), 0) == Ok::<PartialConfig, ConfigError>(stf));
    }
    let shader_dir = match shader_dir {
        None => {
            return Err(ConfigError::MissingKey(ConfigKey::ShaderDir));
        },
        Some(v) => v,
    };
    let grid_size = match grid_size {
        None => {
            return Err(ConfigError::MissingKey(ConfigKey::GridSize));
        },
        Some(v) => v,
    };
    let scale_micro = match scale_micro {
        None => {
            return Err(ConfigError::MissingKey(ConfigKey::Scale));
        },
        Some(v) => v,
    };
    let speed_micro = match speed_micro {
        None => {
            return Err(ConfigError::MissingKey(ConfigKey::Speed));
        },
        Some(v) => v,
    };
    let num_params = match num_params {
        None => {
            return Err(ConfigError::MissingKey(ConfigKey::NumParams));
        },
        Some(v) => v,
    };
    proof {
        assert(stf.shader_dir == Some(shader_dir.deep_view()));
        assert(shader_dir.deep_view() =~= shader_dir@);
    }
    Ok(Config { shader_dir, grid_size, scale_micro, speed_micro, num_params })
}

// --- executable helpers ------------------------------------------------------

/// Split the text at newlines, dropping the empty line of a trailing one.
fn split_lines(text: &[u8]) -> (lines: Vec<Vec<u8>>)
    ensures
        lines.deep_view() == spec_lines(text@),
{
    let mut out: Vec<Vec<u8>> = Vec::new();
    let mut cur: Vec<u8> = Vec::new();
    let mut i: usize = 0;
    proof {
        assert(text@.subrange(0, text@.len() as int) =~= text@);
        assert(out.deep_view() + spec_lines_acc(text@, cur@) =~= spec_lines_acc(text@, Seq::empty()));
    }
    while i < text.len()
        invariant
            i <= text@.len(),
            spec_lines_acc(text@, Seq::empty()) == out.deep_view() + spec_lines_acc(
                text@.subrange(i as int, text@.len() as int),
                cur@,
            ),
        decreases text@.len() - i,
    {
        let ghost rest = text@.subrange(i as int, text@.len() as int);
        let ghost old_out = out.deep_view();
        let ghost old_cur = cur@;
        proof {
            assert(rest[0] == text@[i as int]);
            assert(rest.subrange(1, rest.len() as int) =~= text@.subrange(
                i as int + 1,
                text@.len() as int,
            ));
        }
        let b = text[i];
        if b == 10 {
            out.push(cur);
            cur = Vec::new();
            proof {
                assert(out.deep_view() =~~= old_out.push(old_cur));
                assert(old_out + (seq![old_cur] + spec_lines_acc(
                    text@.subrange(i as int + 1, text@.len() as int),
                    Seq::empty(),
                )) =~= out.deep_view() + spec_lines_acc(
                    text@.subrange(i as int + 1, text@.len() as int),
                    cur@,
                ));
            }
        } else {
            cur.push(b);
        }
        i = i + 1;
    }
    proof {
        assert(text@.subrange(text@.len() as int, text@.len() as int) =~= Seq::<u8>::empty());
        assert(spec_lines_acc(text@, Seq::empty()) == out.deep_view() + seq![cur@]);
        assert(spec_lines_acc(text@, Seq::empty()).last() == cur@);
    }
    if cur.len() == 0 {
        proof {
            assert((out.deep_view() + seq![cur@]).drop_last() =~= out.deep_view());
        }
        out
    } else {
        let ghost old_out = out.deep_view();
        out.push(cur);
        proof {
            assert(out.deep_view() =~~= old_out + seq![cur@]);
        }
        out
    }
}

/// Split a line at whitespace runs.
fn split_tokens(line: &Vec<u8>) -> (toks: Vec<Vec<u8>>)
    ensures
        toks.deep_view() == spec_tokens(line@),
{
    let mut out: Vec<Vec<u8>> = Vec::new();
    let mut cur: Vec<u8> = Vec::new();
    let mut i: usize = 0;
    proof {
        assert(line@.subrange(0, line@.len() as int) =~= line@);
        assert(out.deep_view() + spec_tokens_acc(line@, cur@) =~= spec_tokens_acc(
            line@,
            Seq::empty(),
        ));
    }
    while i < line.len()
        invariant
            i <= line@.len(),
            spec_tokens_acc(line@, Seq::empty()) == out.deep_view() + spec_tokens_acc(
                line@.subrange(i as int, line@.len() as int),
                cur@,
            ),
        decreases line@.len() - i,
    {
        let ghost rest = line@.subrange(i as int, line@.len() as int);
        let ghost old_out = out.deep_view();
        let ghost old_cur = cur@;
        proof {
            assert(rest[0] == line@[i as int]);
            assert(rest.subrange(1, rest.len() as int) =~= line@.subrange(
                i as int + 1,
                line@.len() as int,
            ));
        }
        let b = line[i];
        if b == 32 || b == 9 || b == 13 {
            proof {
                if cur@.len() == 0 {
                    assert(cur@ =~= Seq::<u8>::empty());
                }
            }
            if cur.len() > 0 {
                out.push(cur);
                cur = Vec::new();
                proof {
                    assert(out.deep_view() =~~= old_out.push(old_cur));
                    assert(old_out + (seq![old_cur] + spec_tokens_acc(
                        line@.subrange(i as int + 1, line@.len() as int),
                        Seq::empty(),
                    )) =~= out.deep_view() + spec_tokens_acc(
                        line@.subrange(i as int + 1, line@.len() as int),
                        cur@,
                    ));
                }
            }
        } else {
            cur.push(b);
        }
        i = i + 1;
    }
    proof {
        assert(line@.subrange(line@.len() as int, line@.len() as int) =~= Seq::<u8>::empty());
    }
    if cur.len() > 0 {
        let ghost old_out = out.deep_view();
        out.push(cur);
        proof {
            assert(out.deep_view() =~~= old_out + seq![cur@]);
        }
        out
    } else {
        proof {
            assert(out.deep_view() + Seq::<Seq<u8>>::empty() =~= out.deep_view());
        }
        out
    }
}

/// Whether two byte strings hold the same bytes.
fn bytes_eq(a: &[u8], b: &[u8]) -> (r: bool)
    ensures
        r == (a@ == b@),
{
    if a.len() != b.len() {
        return false;
    }
    let mut i: usize = 0;
    while i < a.len()
        invariant
            i <= a@.len(),
            a@.len() == b@.len(),
            forall|k: int| 0 <= k < i ==> a@[k] == b@[k],
        decreases a@.len() - i,
    {
        if a[i] != b[i] {
            return false;
        }
        i = i + 1;
    }
    proof {
        assert(a@ =~= b@);
    }
    true
}

/// Which key a token names, if any.
fn key_of(tok: &Vec<u8>) -> (k: Option<ConfigKey>)
    ensures
        k == spec_key_of(tok@),
{
    if bytes_eq(tok.as_slice(), "shader_dir".as_bytes()) {
        Some(ConfigKey::ShaderDir)
    } else if bytes_eq(tok.as_slice(), "grid_size".as_bytes()) {
        Some(ConfigKey::GridSize)
    } else if bytes_eq(tok.as_slice(), "scale".as_bytes()) {
        Some(ConfigKey::Scale)
    } else if bytes_eq(tok.as_slice(), "speed".as_bytes()) {
        Some(ConfigKey::Speed)
    } else if bytes_eq(tok.as_slice(), "num_params".as_bytes()) {
        Some(ConfigKey::NumParams)
    } else {
        None
    }
}

// --- digit lemmas -------------------------------------------------------------

/// Digit strings have non-negative values.
proof fn lemma_digits_nonneg(s: Seq<u8>)
    requires
        all_digits(s),
    ensures
        digits_val(s) >= 0,
    decreases s.len(),
{
    if s.len() > 0 {
        assert(all_digits(s.drop_last()));
        lemma_digits_nonneg(s.drop_last());
        assert(is_digit(s.last()));
    }
}

/// A digit-string prefix never exceeds the whole string's value.
proof fn lemma_digits_monotone(s: Seq<u8>, i: int)
    requires
        all_digits(s),
        0 <= i <= s.len(),
    ensures
        digits_val(s.take(i)) <= digits_val(s),
    decreases s.len() - i,
{
    if i < s.len() {
        assert(s.take(i + 1).drop_last() =~= s.take(i));
        assert(s.take(i + 1).last() == s[i]);
        assert(all_digits(s.take(i)));
        lemma_digits_nonneg(s.take(i));
        assert(is_digit(s[i]));
        lemma_digits_monotone(s, i + 1);
    } else {
        assert(s.take(i) =~= s);
    }
}

/// A digit string's value is below ten to its length.
proof fn lemma_digits_upper(s: Seq<u8>)
    requires
        all_digits(s),
    ensures
        digits_val(s) < pow10(s.len() as int),
    decreases s.len(),
{
    if s.len() > 0 {
        assert(all_digits(s.drop_last()));
        lemma_digits_upper(s.drop_last());
        assert(is_digit(s.last()));
        assert(pow10(s.len() as int) == 10 * pow10(s.len() - 1));
    }
}

/// Powers of ten multiply by adding exponents.
proof fn lemma_pow10_add(a: int, b: int)
    requires
        a >= 0,
        b >= 0,
    ensures
        pow10(a) * pow10(b) == pow10(a + b),
    decreases a,
{
    if a == 0 {
        assert(pow10(0) * pow10(b) == pow10(b)) by (nonlinear_arith)
            requires
                pow10(0) == 1,
        ;
    } else {
        lemma_pow10_add(a - 1, b);
        assert((10 * pow10(a - 1)) * pow10(b) == 10 * (pow10(a - 1) * pow10(b)))
            by (nonlinear_arith);
    }
}

// --- number parsing -------------------------------------------------------------

/// The value of a digit-only token, bounded by `limit`.
fn digits_to_val(t: &[u8], limit: u64) -> (r: Option<u64>)
    requires
        limit <= 1_000_000_000_000_000_000,
    ensures
        match r {
            Some(v) => t@.len() > 0 && all_digits(t@) && v == digits_val(t@) && v <= limit,
            None => t@.len() == 0 || !all_digits(t@) || digits_val(t@) > limit,
        },
{
    if t.len() == 0 {
        return None;
    }
    let mut acc: u64 = 0;
    let mut i: usize = 0;
    proof {
        assert(t@.take(0) =~= Seq::<u8>::empty());
    }
    while i < t.len()
        invariant
            i <= t@.len(),
            limit <= 1_000_000_000_000_000_000,
            acc <= limit,
            all_digits(t@.take(i as int)),
            acc == digits_val(t@.take(i as int)),
        decreases t@.len() - i,
    {
        let b = t[i];
        if b < 48 || b > 57 {
            return None;
        }
        let d = (b - 48) as u64;
        let acc2 = acc * 10 + d;
        proof {
            assert(t@.take(i as int + 1).drop_last() =~= t@.take(i as int));
            assert(t@.take(i as int + 1).last() == t@[i as int]);
            assert(all_digits(t@.take(i as int + 1)));
        }
        if acc2 > limit {
            proof {
                if all_digits(t@) {
                    lemma_digits_monotone(t@, i as int + 1);
                }
            }
            return None;
        }
        acc = acc2;
        i = i + 1;
    }
    proof {
        assert(t@.take(t@.len() as int) =~= t@);
    }
    Some(acc)
}

/// Parse an unsigned integer token.
fn parse_u32(t: &Vec<u8>) -> (r: Option<u32>)
    ensures
        r == spec_parse_u32(t@),
{
    match digits_to_val(t.as_slice(), 4_294_967_295) {
        None => None,
        Some(v) => Some(v as u32),
    }
}

/// The first `.` of a token, if any.
fn find_dot(t: &[u8]) -> (r: Option<usize>)
    ensures
        match r {
            Some(j) => j < t@.len() && first_dot(t@, 0) == j,
            None => first_dot(t@, 0) == -1,
        },
{
    let mut i: usize = 0;
    while i < t.len()
        invariant
            i <= t@.len(),
            first_dot(t@, 0) == first_dot(t@, i as int),
        decreases t@.len() - i,
    {
        if t[i] == 46 {
            return Some(i);
        }
        i = i + 1;
    }
    None
}

/// Ten to a small power.
fn pow10_u64(k: usize) -> (r: u64)
    requires
        k <= 6,
    ensures
        r == pow10(k as int),
        r <= 1_000_000,
{
    proof {
        assert(pow10(0) == 1);
        assert(pow10(1) == 10);
        assert(pow10(2) == 100);
        assert(pow10(3) == 1000);
        assert(pow10(4) == 10000);
        assert(pow10(5) == 100000);
        assert(pow10(6) == 1000000);
    }
    if k == 0 {
        1
    } else if k == 1 {
        10
    } else if k == 2 {
        100
    } else if k == 3 {
        1_000
    } else if k == 4 {
        10_000
    } else if k == 5 {
        100_000
    } else {
        1_000_000
    }
}

/// Parse a decimal token into exact micro-units.
fn parse_micro(t: &Vec<u8>) -> (r: Option<u64>)
    ensures
        r == spec_parse_micro(t@),
{
    match find_dot(t.as_slice()) {
        None => {
            match digits_to_val(t.as_slice(), DECIMAL_INT_MAX) {
                None => None,
                Some(v) => Some(v * 1_000_000),
            }
        },
        Some(j) => {
            let n = t.len();
            assert(j < n);
            let ip = &t.as_slice()[0..j];
            let fp = &t.as_slice()[j + 1..n];
            proof {
                assert(ip@ =~= t@.take(j as int));
                assert(fp@ =~= t@.subrange(j as int + 1, t@.len() as int));
            }
            if fp.len() < 1 || fp.len() > 6 {
                return None;
            }
            let iv = match digits_to_val(ip, DECIMAL_INT_MAX) {
                None => {
                    return None;
                },
                Some(v) => v,
            };
            let fv = match digits_to_val(fp, 999_999) {
                None => {
                    proof {
                        if all_digits(fp@) {
                            lemma_digits_upper(fp@);
                            lemma_digits_nonneg(fp@);
                            assert(pow10(0) == 1);
                            assert(pow10(1) == 10);
                            assert(pow10(2) == 100);
                            assert(pow10(3) == 1000);
                            assert(pow10(4) == 10000);
                            assert(pow10(5) == 100000);
                            assert(pow10(6) == 1000000);
                        }
                    }
                    return None;
                },
                Some(v) => v,
            };
            let scale = pow10_u64(6 - fp.len());
            proof {
                lemma_digits_upper(fp@);
                lemma_digits_nonneg(fp@);
                lemma_pow10_add(fp@.len() as int, 6 - fp@.len() as int);
                crate::fixed::lemma_mul_bound(
                    fv as int,
                    scale as int,
                    pow10(fp@.len() as int) - 1,
                    pow10(6 - fp@.len() as int),
                );
                assert((pow10(fp@.len() as int) - 1) * pow10(6 - fp@.len() as int) == pow10(
                    fp@.len() as int,
                ) * pow10(6 - fp@.len() as int) - pow10(6 - fp@.len() as int))
                    by (nonlinear_arith);
                assert(pow10(0) == 1);
                assert(pow10(1) == 10);
                assert(pow10(2) == 100);
                assert(pow10(3) == 1000);
                assert(pow10(4) == 10000);
                assert(pow10(5) == 100000);
                assert(pow10(6) == 1000000);
            }
            let value = iv * 1_000_000 + fv * scale;
            Some(value)
        },
    }
}

} // verus!
