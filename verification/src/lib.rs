//! A source transform that turns plain `assert(..)` calls of JavaScript and
//! TypeScript programs into power-assert calls, which record the value of
//! every sub-expression of the asserted condition.
pub mod ast;
pub mod text;
pub mod flatten_member_exprs;
pub mod power_assert_recorder;
pub mod power_assert_transformer;
pub mod assert_import_replacer;

use vstd::prelude::*;

verus! {

/// The file name that assertions report: the one the host knows, or `<source>` when it knows none.
pub fn resolve_file_name(file_name: Option<String>) -> (s: String)
    ensures
        s@ == match file_name {
            Some(n) => n@,
            None => "<source>"@,
        },
{
    match file_name {
        Some(n) => n,
        None => String::from_str("<source>"),
    }
}

} // verus!
