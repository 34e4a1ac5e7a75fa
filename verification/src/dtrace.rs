//! The legacy dialect of the provider grammar, which also names real and
//! `string` argument types.

use vstd::prelude::*;
use crate::grammar::{parse_in, rule_end, Dialect, Rule, RuleMismatch};

verus! {

/// The parser of the legacy dialect.
pub struct DTraceParser;

impl DTraceParser {
    /// Match `rule` against the start of `input`, in the legacy dialect.
    pub fn parse(rule: Rule, input: &str) -> (r: Result<usize, RuleMismatch>)
        ensures
            match r {
                Ok(n) => rule_end(Dialect::Legacy, rule, input@) == Some(n as int),
                Err(e) => rule_end(Dialect::Legacy, rule, input@) is None && e.rule == rule,
            },
    {
        parse_in(Dialect::Legacy, rule, input)
    }
}

} // verus!
