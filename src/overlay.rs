use vstd::prelude::*;
use vstd::string::*;
use crate::scalar::{lower_eq, char_lower_eq};

verus! {

/// `name` (a variable name with its prefix removed) designates the key path
/// `key`: read left to right, `__` stands for `.` and every other character
/// for itself folded to ASCII lower case.
pub open spec fn names_path(name: Seq<char>, key: Seq<char>) -> bool
    decreases name.len(),
{
    if name.len() == 0 {
        key.len() == 0
    } else if name.len() >= 2 && name[0] == '_' && name[1] == '_' {
        key.len() > 0 && key[0] == '.' && names_path(name.skip(2), key.skip(1))
    } else {
        key.len() > 0 && lower_eq(name[0], key[0]) && names_path(name.skip(1), key.skip(1))
    }
}

/// The variable `name` belongs to the overlay: it starts with `APP_`, the
/// letters in any ASCII case.
pub open spec fn in_overlay(name: Seq<char>) -> bool {
    &&& name.len() >= 4
    &&& lower_eq(name[0], 'a')
    &&& lower_eq(name[1], 'p')
    &&& lower_eq(name[2], 'p')
    &&& name[3] == '_'
}

/// The variable `name` belongs to the overlay and designates the key path `key`.
pub open spec fn overlay_path(name: Seq<char>, key: Seq<char>) -> bool {
    in_overlay(name) && names_path(name.skip(4), key)
}

/// The value that the overlay gives to `key`: that of the last variable in
/// `vars` that designates it.
pub open spec fn overlay_lookup(vars: Seq<(String, String)>, key: Seq<char>) -> Option<Seq<char>>
    decreases vars.len(),
{
    if vars.len() == 0 {
        None
    } else if overlay_path(vars.last().0@, key) {
        Some(vars.last().1@)
    } else {
        overlay_lookup(vars.drop_last(), key)
    }
}

/// Whether the variable `name` sets the key path `key`.
pub fn sets_path(name: &str, key: &str) -> (r: bool)
    ensures
        r == overlay_path(name@, key@),
{
    let n = name.unicode_len();
    let m = key.unicode_len();
    if n < 4 {
        return false;
    }
    if !(char_lower_eq(name.get_char(0), 'a') && char_lower_eq(name.get_char(1), 'p')
        && char_lower_eq(name.get_char(2), 'p') && name.get_char(3) == '_') {
        return false;
    }
    let ghost nm = name@;
    let ghost km = key@;
    let mut i: usize = 4;
    let mut j: usize = 0;
    assert(km.skip(0) =~= km);
    while i < n
        invariant
            n == nm.len(),
            m == km.len(),
            nm == name@,
            km == key@,
            4 <= i <= n,
            j <= m,
            names_path(nm.skip(4), km) == names_path(nm.skip(i as int), km.skip(j as int)),
        decreases n - i,
    {
        let ghost rest = nm.skip(i as int);
        let ghost krest = km.skip(j as int);
        if i + 1 < n && name.get_char(i) == '_' && name.get_char(i + 1) == '_' {
            assert(rest[0] == '_' && rest[1] == '_');
            if j < m && key.get_char(j) == '.' {
                assert(rest.skip(2) =~= nm.skip(i + 2));
                assert(krest.skip(1) =~= km.skip(j + 1));
                i = i + 2;
                j = j + 1;
            } else {
                return false;
            }
        } else {
            assert(!(rest.len() >= 2 && rest[0] == '_' && rest[1] == '_'));
            if j < m && char_lower_eq(name.get_char(i), key.get_char(j)) {
                assert(rest.skip(1) =~= nm.skip(i + 1));
                assert(krest.skip(1) =~= km.skip(j + 1));
                i = i + 1;
                j = j + 1;
            } else {
                return false;
            }
        }
    }
    assert(nm.skip(i as int).len() == 0);
    j == m
}

/// The overlay's value for `key`, the last variable that sets it winning.
pub fn overlay_value(vars: &Vec<(String, String)>, key: &str) -> (r: Option<String>)
    ensures
        r matches Some(s) ==> overlay_lookup(vars@, key@) == Some(s@),
        r is None <==> overlay_lookup(vars@, key@) is None,
{
    let mut i: usize = vars.len();
    assert(vars@.take(i as int) =~= vars@);
    while i > 0
        invariant
            i <= vars@.len(),
            overlay_lookup(vars@, key@) == overlay_lookup(vars@.take(i as int), key@),
        decreases i,
    {
        let ghost pre = vars@.take(i as int);
        assert(pre.drop_last() =~= vars@.take(i - 1));
        let entry = &vars[i - 1];
        if sets_path(entry.0.as_str(), key) {
            return Some(entry.1.clone());
        }
        i = i - 1;
    }
    None
}

} // verus!
