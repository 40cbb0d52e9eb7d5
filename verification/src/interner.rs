//! String interning, through `lasso::Rodeo`.
//!
//! Runtime string values carry a small integer handle; the interner maps
//! handles to string content. `lasso` hands out handles sequentially, so
//! the table's contents are modelled as a sequence of strings indexed by
//! handle. The table never stores the same string twice, which justifies
//! comparing string values by handle.

use vstd::prelude::*;

verus! {

#[verifier::external_type_specification]
#[verifier::external_body]
#[verifier::reject_recursive_types(K)]
#[verifier::reject_recursive_types(S)]
pub struct ExRodeo<K, S>(lasso::Rodeo<K, S>);

#[verifier::external_type_specification]
#[verifier::external_body]
pub struct ExSpur(lasso::Spur);

/// The strings a `Rodeo` holds, indexed by handle.
pub uninterp spec fn interner_seq(table: lasso::Rodeo) -> Seq<Seq<char>>;

/// Whether the table already holds `s`.
pub open spec fn table_has(tbl: Seq<Seq<char>>, s: Seq<char>) -> bool {
    exists|i: int| 0 <= i < tbl.len() && tbl[i] == s
}

/// No string is stored under two handles.
pub open spec fn table_injective(tbl: Seq<Seq<char>>) -> bool {
    forall|i: int, j: int|
        0 <= i < tbl.len() && 0 <= j < tbl.len() && tbl[i] == tbl[j] ==> i == j
}

/// Relies on `lasso::Rodeo::new`: a fresh interner holds no strings.
#[verifier::external_body]
pub fn rodeo_new() -> (r: lasso::Rodeo)
    ensures
        interner_seq(r) == Seq::<Seq<char>>::empty(),
{
    lasso::Rodeo::new()
}

/// One less than the largest number of strings the interner can hold; the
/// caller checks the table is below it before interning.
pub const INTERNER_CAPACITY: u32 = 0xFFFF_FFFE;

/// Relies on `lasso::Rodeo::len`: the number of strings the table holds.
#[verifier::external_body]
pub fn interner_len(table: &lasso::Rodeo) -> (r: usize)
    ensures
        r as int == interner_seq(*table).len(),
{
    table.len()
}

/// Relies on `lasso::Rodeo::get_or_intern`: the handle of a string
/// already held is returned and the table kept; a new string is appended
/// and gets the next handle. The one input its documentation names as
/// panicking, an exhausted key space, is left out by the precondition;
/// running out of memory aborts, as any allocation does.
#[verifier::external_body]
pub fn intern_str(table: &mut lasso::Rodeo, s: &str) -> (h: u32)
    requires
        interner_seq(*old(table)).len() < INTERNER_CAPACITY as int,
    ensures
        if table_has(interner_seq(*old(table)), s@) {
            &&& interner_seq(*final(table)) == interner_seq(*old(table))
            &&& (h as int) < interner_seq(*old(table)).len()
        } else {
            &&& h as int == interner_seq(*old(table)).len()
            &&& interner_seq(*final(table)) == interner_seq(*old(table)).push(s@)
        },
        interner_seq(*final(table))[h as int] == s@,
{
    lasso::Key::into_usize(table.get_or_intern(s)) as u32
}

/// Relies on `lasso::Rodeo::get`: the handle of a string the table
/// holds, `None` when it holds no such string.
#[verifier::external_body]
pub fn get_str(table: &lasso::Rodeo, s: &str) -> (r: Option<u32>)
    ensures
        (r is Some) <==> table_has(interner_seq(*table), s@),
        r matches Some(h) ==> (h as int) < interner_seq(*table).len() && interner_seq(*table)[
            h as int
        ] == s@,
{
    match table.get(s) {
        Some(k) => Some(lasso::Key::into_usize(k) as u32),
        None => None,
    }
}

/// A table that held no copy of `s` stays injective when `s` is
/// appended.
pub proof fn lemma_push_injective(tbl: Seq<Seq<char>>, s: Seq<char>)
    requires
        table_injective(tbl),
        !table_has(tbl, s),
    ensures
        table_injective(tbl.push(s)),
{
    let tbl1 = tbl.push(s);
    assert forall|i: int, j: int|
        0 <= i < tbl1.len() && 0 <= j < tbl1.len() && tbl1[i] == tbl1[j] implies i == j by {
        if i < tbl.len() && j < tbl.len() {
            assert(tbl[i] == tbl1[i] && tbl[j] == tbl1[j]);
        } else if i == tbl.len() && j < tbl.len() {
            assert(tbl[j] == tbl1[j] && tbl1[i] == s);
            assert(0 <= j < tbl.len() && tbl[j] == s);
        } else if j == tbl.len() && i < tbl.len() {
            assert(tbl[i] == tbl1[i] && tbl1[j] == s);
            assert(0 <= i < tbl.len() && tbl[i] == s);
        }
    }
}

/// Relies on `lasso::Rodeo::try_resolve`: the string held under a valid
/// handle, `None` for a handle the table does not hold.
#[verifier::external_body]
pub fn resolve_str(table: &lasso::Rodeo, h: u32) -> (r: Option<String>)
    ensures
        (r is Some) <==> (h as int) < interner_seq(*table).len(),
        r matches Some(s) ==> s@ == interner_seq(*table)[h as int],
{
    match lasso::Key::try_from_usize(h as usize) {
        Some(k) => {
            let k: lasso::Spur = k;
            match table.try_resolve(&k) {
                Some(s) => Some(s.to_string()),
                None => None,
            }
        },
        None => None,
    }
}

} // verus!
