//! The settings parser: turns the lines of `settings.cfg` into the Config
//! record the server consumes, together with the malformed lines that
//! deserve a warning. Reading the file is the caller's business.

use vstd::prelude::*;
use crate::strutil::bool_from_str_spec;
use crate::strutil::find_from;
use crate::strutil::first_pos_from;
use crate::strutil::parse_bool;
use crate::strutil::parse_usize;
use crate::strutil::str_eq;
use crate::strutil::strip_quotes;
use crate::strutil::strip_quotes_spec;
use crate::strutil::trim;
use crate::strutil::trim_spec;
use crate::strutil::usize_from_str_spec;

verus! {

/// The settings record the server consumes, immutable once loaded.
#[derive(Debug)]
pub struct Config {
    pub ip: String,
    pub port: String,
    pub threads: usize,
    pub home_name: String,
    pub ssl: String,
}

/// The parser's state: the settings gathered so far, whether warnings are
/// suppressed, and the malformed lines seen while they were not.
pub struct ParseState {
    pub ip: Seq<char>,
    pub port: Seq<char>,
    pub threads: usize,
    pub home_name: Seq<char>,
    pub ssl: Seq<char>,
    pub suppress: bool,
    pub warnings: Seq<Seq<char>>,
}

/// The defaults before any line is read; warnings start unsuppressed.
pub open spec fn initial_state() -> ParseState {
    ParseState {
        ip: "127.0.0.1"@,
        port: "8080"@,
        threads: 20,
        home_name: "home"@,
        ssl: ""@,
        suppress: false,
        warnings: Seq::empty(),
    }
}

/// Where a line has exactly one `=`, the raw text on each side of it.
pub open spec fn eq_split(s: Seq<char>) -> Option<(Seq<char>, Seq<char>)> {
    match first_pos_from(s, '=', 0) {
        None => None,
        Some(k) => match first_pos_from(s, '=', k + 1) {
            Some(_) => None,
            None => Some((s.subrange(0, k), s.subrange(k + 1, s.len() as int))),
        },
    }
}

/// One line's effect. Blank lines and `#` comments are skipped. A line
/// without exactly one `=` is skipped, and recorded as a warning unless
/// suppression is on at that point. A recognized key updates its field:
/// string values lose surrounding quotes; an unparsable thread count falls
/// back to 20; an unparsable suppression value counts as `true`. Unknown
/// keys are ignored.
pub open spec fn apply_line(st: ParseState, line: Seq<char>) -> ParseState {
    let t = trim_spec(line);
    if t.len() == 0 || t[0] == '#' {
        st
    } else {
        match eq_split(line) {
            None => if st.suppress {
                st
            } else {
                ParseState { warnings: st.warnings.push(line), ..st }
            },
            Some((rawk, rawv)) => {
                let key = trim_spec(rawk);
                let value = trim_spec(rawv);
                if key == "ip"@ {
                    ParseState { ip: strip_quotes_spec(value), ..st }
                } else if key == "port"@ {
                    ParseState { port: strip_quotes_spec(value), ..st }
                } else if key == "num-threads"@ {
                    ParseState {
                        threads: match usize_from_str_spec(value) {
                            Some(n) => n as usize,
                            None => 20,
                        },
                        ..st
                    }
                } else if key == "suppress-warnings"@ {
                    ParseState {
                        suppress: match bool_from_str_spec(value) {
                            Some(b) => b,
                            None => true,
                        },
                        ..st
                    }
                } else if key == "home-name"@ {
                    ParseState { home_name: strip_quotes_spec(value), ..st }
                } else if key == "ssl-cert"@ {
                    ParseState { ssl: strip_quotes_spec(value), ..st }
                } else {
                    st
                }
            },
        }
    }
}

/// The state after every line, in order.
pub open spec fn fold_lines(lines: Seq<Seq<char>>) -> ParseState
    decreases lines.len(),
{
    if lines.len() == 0 {
        initial_state()
    } else {
        apply_line(fold_lines(lines.drop_last()), lines.last())
    }
}

/// Whether an exec record and warning list carry exactly a parse state.
pub open spec fn matches_state(c: Config, warnings: Seq<Seq<char>>, st: ParseState) -> bool {
    &&& c.ip@ == st.ip
    &&& c.port@ == st.port
    &&& c.threads == st.threads
    &&& c.home_name@ == st.home_name
    &&& c.ssl@ == st.ssl
    &&& warnings == st.warnings
}

/// Parses the settings file's lines. Returns the record and the malformed
/// lines to warn about, in the order they were met.
pub fn parse_config(lines: &Vec<String>) -> (r: (Config, Vec<String>))
    ensures
        matches_state(r.0, r.1.deep_view(), fold_lines(lines.deep_view())),
{
    let mut cfg = Config {
        ip: String::new(),
        port: String::new(),
        threads: 20,
        home_name: String::new(),
        ssl: String::new(),
    };
    cfg.ip.append("127.0.0.1");
    cfg.port.append("8080");
    cfg.home_name.append("home");
    let mut suppress: bool = false;
    let mut warnings: Vec<String> = Vec::new();
    proof {
        reveal_strlit("");
        assert(lines.deep_view().take(0) =~= Seq::<Seq<char>>::empty());
        assert(warnings.deep_view() =~= Seq::<Seq<char>>::empty());
        assert(cfg.ip@ =~= "127.0.0.1"@);
        assert(cfg.port@ =~= "8080"@);
        assert(cfg.home_name@ =~= "home"@);
        assert(cfg.ssl@ =~= ""@);
    }
    let mut i: usize = 0;
    while i < lines.len()
        invariant
            i <= lines.len(),
            lines.deep_view().len() == lines.len(),
            forall|j: int| 0 <= j < lines.len() ==> lines.deep_view()[j] == lines@[j]@,
            matches_state(
                cfg,
                warnings.deep_view(),
                fold_lines(lines.deep_view().take(i as int)),
            ) && suppress == fold_lines(lines.deep_view().take(i as int)).suppress,
        decreases lines.len() - i,
    {
        let ghost pre = fold_lines(lines.deep_view().take(i as int));
        let line: &String = &lines[i];
        proof {
            assert(lines.deep_view().take(i + 1).drop_last() =~= lines.deep_view().take(i as int));
            assert(lines.deep_view().take(i + 1).last() == line@);
        }
        let len: usize = line.as_str().unicode_len();
        let t = trim(line.as_str());
        let skip: bool = t.unicode_len() == 0 || t.get_char(0) == '#';
        if !skip {
            let split: Option<(usize, bool)> = match find_from(line.as_str(), '=', 0) {
                None => None,
                Some(k) => match find_from(line.as_str(), '=', k + 1) {
                    Some(_) => None,
                    None => Some((k, true)),
                },
            };
            match split {
                None => {
                    if !suppress {
                        warnings.push(line.clone());
                        proof {
                            assert(warnings.deep_view() =~= pre.warnings.push(line@));
                        }
                    }
                },
                Some((k, _)) => {
                    let rawk = line.as_str().substring_char(0, k);
                    let rawv = line.as_str().substring_char(k + 1, len);
                    let key = trim(rawk);
                    let value = trim(rawv);
                    if str_eq(key, "ip") {
                        let mut v: String = String::new();
                        v.append(strip_quotes(value));
                        cfg.ip = v;
                    } else if str_eq(key, "port") {
                        let mut v: String = String::new();
                        v.append(strip_quotes(value));
                        cfg.port = v;
                    } else if str_eq(key, "num-threads") {
                        cfg.threads = match parse_usize(value) {
                            Some(n) => n,
                            None => 20,
                        };
                    } else if str_eq(key, "suppress-warnings") {
                        suppress = match parse_bool(value) {
                            Some(b) => b,
                            None => true,
                        };
                    } else if str_eq(key, "home-name") {
                        let mut v: String = String::new();
                        v.append(strip_quotes(value));
                        cfg.home_name = v;
                    } else if str_eq(key, "ssl-cert") {
                        let mut v: String = String::new();
                        v.append(strip_quotes(value));
                        cfg.ssl = v;
                    }
                },
            }
        }
        proof {
            assert(fold_lines(lines.deep_view().take(i + 1)) == apply_line(pre, line@));
        }
        i = i + 1;
    }
    proof {
        assert(lines.deep_view().take(lines.len() as int) =~= lines.deep_view());
    }
    (cfg, warnings)
}

} // verus!
