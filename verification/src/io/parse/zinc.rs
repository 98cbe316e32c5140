//! Reading Zinc values from the front of a text. Each reader hands back the
//! rest of the text and the value, as the rule of `grammar` of the same name
//! states them.
use vstd::prelude::*;
use vstd::string::StrSliceExecFns;
use crate::text::{str_chars, chars_slice_string};
use crate::io::parse::lex::{char_at, at, char_is, tag, Class};
use crate::io::parse::grammar::{ZVal, models, literal as literal_rule, quoted, reference, run1, datetime as datetime_rule,
    coord as coord_rule, dict as dict_rule, list as list_rule, tags, span, tz_offset, number_free, entries_free};
use crate::io::parse::read::{read_quoted, read_reference, read_run1, read_datetime, read_ident};
use crate::io::parse::values::{ParseErr, read_literal, read_coord, read_dict, read_list, read_tags, answers,
    lemma_dict_models};
use crate::io::parse::grids::{grid as grid_rule, grid_err as grid_err_rule, cols as cols_rule, meta_models, cols_model,
    read_grid, read_grid_err, read_cols, cols_free, col_end_ok, err_meta, meta_free};
use crate::h_val::{HBox, HVal};
use crate::h_bool::HBool;
use crate::h_null::{HNull, NULL};
use crate::h_na::{HNA, NA};
use crate::h_marker::{HMarker, MARKER};
use crate::h_remove::{HRemove, REMOVE};
use crate::h_str::HStr;
use crate::h_uri::{HUri, url_serialization};
use crate::h_datetime::HDateTime;
use crate::h_coord::HCoord;
use crate::h_dict::HDict;
use crate::h_list::HList;
use crate::h_grid::HGrid;
use crate::h_number::NumTrait;

verus! {

/// The text after the first `e` characters.
fn rest_from<'a>(input: &'a str, cs: &Vec<char>, e: usize) -> (r: &'a str)
    requires
        cs@ == input@,
        e <= cs@.len(),
    ensures
        r@ == input@.skip(e as int),
{
    input.substring_char(e, cs.len())
}

/// A value of any kind at the front of `input` (see the rule `literal`).
pub fn literal<T: NumTrait + core::str::FromStr>(input: &str) -> (r: Result<(&str, HBox<T>), ParseErr>)
    ensures
        match r {
            Ok((rest, v)) => literal_rule(input@, 0) matches Some((m, e)) && rest@ == input@.skip(e) && models(*v, m),
            Err(ParseErr::NoMatch) => literal_rule(input@, 0) is None,
            Err(ParseErr::BadNumber) => !(literal_rule(input@, 0) matches Some((m, _)) && number_free(m)),
        },
{
    let cs = str_chars(input);
    match read_literal::<T>(&cs, 0) {
        Ok(Some((v, e))) => Ok((rest_from(input, &cs, e), v)),
        Ok(None) => Err(ParseErr::NoMatch),
        Err(e) => Err(e),
    }
}

/// `T` or `F` at the front of `input`.
pub fn boolean(input: &str) -> (r: Result<(&str, HBool), ParseErr>)
    ensures
        match r {
            Ok((rest, b)) => (if char_at(input@, 0, 'T') { b.0 } else { char_at(input@, 0, 'F') && !b.0 })
                && rest@ == input@.skip(1),
            Err(e) => e == ParseErr::NoMatch && !char_at(input@, 0, 'T') && !char_at(input@, 0, 'F'),
        },
{
    let cs = str_chars(input);
    if char_is(&cs, 0, 'T') {
        Ok((rest_from(input, &cs, 1), HBool(true)))
    } else if char_is(&cs, 0, 'F') {
        Ok((rest_from(input, &cs, 1), HBool(false)))
    } else {
        Err(ParseErr::NoMatch)
    }
}

/// The single character `c` at the front of `input`: the rest after it.
fn single(input: &str, c: char) -> (r: Option<&str>)
    ensures
        match r {
            Some(rest) => char_at(input@, 0, c) && rest@ == input@.skip(1),
            None => !char_at(input@, 0, c),
        },
{
    let cs = str_chars(input);
    if char_is(&cs, 0, c) {
        Some(rest_from(input, &cs, 1))
    } else {
        None
    }
}

/// `N` at the front of `input`: the null value.
pub fn null(input: &str) -> (r: Result<(&str, HNull), ParseErr>)
    ensures
        match r {
            Ok((rest, _)) => char_at(input@, 0, 'N') && rest@ == input@.skip(1),
            Err(e) => e == ParseErr::NoMatch && !char_at(input@, 0, 'N'),
        },
{
    match single(input, 'N') {
        Some(rest) => Ok((rest, NULL)),
        None => Err(ParseErr::NoMatch),
    }
}

/// `NA` at the front of `input`: the NA value.
pub fn na(input: &str) -> (r: Result<(&str, HNA), ParseErr>)
    ensures
        match r {
            Ok((rest, _)) => at(input@, 0, "NA"@) && rest@ == input@.skip(2),
            Err(e) => e == ParseErr::NoMatch && !at(input@, 0, "NA"@),
        },
{
    let cs = str_chars(input);
    if tag(&cs, 0, "NA") {
        proof { reveal_strlit("NA"); }
        Ok((rest_from(input, &cs, 2), NA))
    } else {
        Err(ParseErr::NoMatch)
    }
}

/// `M` at the front of `input`: the marker.
pub fn marker(input: &str) -> (r: Result<(&str, HMarker), ParseErr>)
    ensures
        match r {
            Ok((rest, _)) => char_at(input@, 0, 'M') && rest@ == input@.skip(1),
            Err(e) => e == ParseErr::NoMatch && !char_at(input@, 0, 'M'),
        },
{
    match single(input, 'M') {
        Some(rest) => Ok((rest, MARKER)),
        None => Err(ParseErr::NoMatch),
    }
}

/// `R` at the front of `input`: the remove value.
pub fn remove(input: &str) -> (r: Result<(&str, HRemove), ParseErr>)
    ensures
        match r {
            Ok((rest, _)) => char_at(input@, 0, 'R') && rest@ == input@.skip(1),
            Err(e) => e == ParseErr::NoMatch && !char_at(input@, 0, 'R'),
        },
{
    match single(input, 'R') {
        Some(rest) => Ok((rest, REMOVE)),
        None => Err(ParseErr::NoMatch),
    }
}

/// A string literal at the front of `input`: its characters, with escapes
/// `\b \f \n \r \t \" \\ \$` read (see `quoted`).
pub fn string(input: &str) -> (r: Result<(&str, HStr), ParseErr>)
    ensures
        match r {
            Ok((rest, s)) => quoted(input@, 0, false) matches Some((t, e)) && s@ == t && rest@ == input@.skip(e),
            Err(e) => e == ParseErr::NoMatch && quoted(input@, 0, false) is None,
        },
{
    let cs = str_chars(input);
    match read_quoted(&cs, 0, false) {
        Some((t, e)) => Ok((rest_from(input, &cs, e), HStr(t))),
        None => Err(ParseErr::NoMatch),
    }
}

/// A URI literal at the front of `input` whose text the URL parser accepts
/// (see `quoted`).
pub fn uri(input: &str) -> (r: Result<(&str, HUri), ParseErr>)
    ensures
        match r {
            Ok((rest, u)) => quoted(input@, 0, true) matches Some((t, e)) && url_serialization(t) == Some(u@)
                && rest@ == input@.skip(e),
            Err(e) => e == ParseErr::NoMatch && (quoted(input@, 0, true) matches Some((t, _)) ==> url_serialization(
                t,
            ) is None),
        },
{
    let cs = str_chars(input);
    match read_quoted(&cs, 0, true) {
        Some((t, e)) => match HUri::new(t.as_str()) {
            Ok(u) => Ok((rest_from(input, &cs, e), u)),
            Err(_) => Err(ParseErr::NoMatch),
        },
        None => Err(ParseErr::NoMatch),
    }
}

/// `prefix` and the characters of a reference at the front of `input`: the
/// characters, without the prefix.
pub fn ref_chars_body(prefix: char, input: &str) -> (r: Result<(&str, String), ParseErr>)
    ensures
        match r {
            Ok((rest, body)) => char_at(input@, 0, prefix) && (run1(input@, 1, Class::RefChar) matches Some(e)
                && body@ == span(input@, 1, e) && rest@ == input@.skip(e)),
            Err(e) => e == ParseErr::NoMatch && !(char_at(input@, 0, prefix) && run1(input@, 1, Class::RefChar) is Some),
        },
{
    let cs = str_chars(input);
    if !char_is(&cs, 0, prefix) {
        return Err(ParseErr::NoMatch);
    }
    match read_run1(&cs, 1, Class::RefChar) {
        Some(e) => Ok((rest_from(input, &cs, e), chars_slice_string(&cs, 1, e))),
        None => Err(ParseErr::NoMatch),
    }
}

/// A date-time at the front of `input` (see the rule `datetime`).
pub fn datetime(input: &str) -> (r: Result<(&str, HDateTime), ParseErr>)
    ensures
        match r {
            Ok((rest, x)) => datetime_rule(input@, 0) matches Some((ZVal::DateTime(y, mo, d, h, mi, s, n, tz), e))
                && x.parts() == (y, mo, d, h, mi, s, n) && x.tz_spec().offset_spec() == tz_offset(tz) && rest@
                == input@.skip(e),
            Err(e) => e == ParseErr::NoMatch && datetime_rule(input@, 0) is None,
        },
{
    let cs = str_chars(input);
    match read_datetime(&cs, 0) {
        Some((x, e)) => Ok((rest_from(input, &cs, e), x)),
        None => Err(ParseErr::NoMatch),
    }
}

/// A coordinate at the front of `input` (see the rule `coord`); its degrees
/// are what the numeric type reads from their texts.
pub fn coord<T: NumTrait + core::str::FromStr>(input: &str) -> (r: Result<(&str, HCoord<T>), ParseErr>)
    ensures
        match r {
            Ok((rest, _)) => coord_rule(input@, 0) matches Some((_, _, e)) && rest@ == input@.skip(e),
            Err(ParseErr::NoMatch) => coord_rule(input@, 0) is None,
            Err(ParseErr::BadNumber) => coord_rule(input@, 0) is Some,
        },
{
    let cs = str_chars(input);
    match read_coord::<T>(&cs, 0) {
        Ok(Some((x, e))) => Ok((rest_from(input, &cs, e), x)),
        Ok(None) => Err(ParseErr::NoMatch),
        Err(e) => Err(e),
    }
}

/// A dict at the front of `input` (see the rule `dict`).
pub fn dict<T: NumTrait + core::str::FromStr>(input: &str) -> (r: Result<(&str, HDict<T>), ParseErr>)
    ensures
        match r {
            Ok((rest, d)) => dict_rule(input@, 0) matches Some((m, e)) && models(HVal::Dict(d), m) && d.wf()
                && rest@ == input@.skip(e),
            Err(ParseErr::NoMatch) => dict_rule(input@, 0) is None,
            Err(ParseErr::BadNumber) => !(dict_rule(input@, 0) matches Some((m, _)) && number_free(m)),
        },
{
    let cs = str_chars(input);
    match read_dict::<T>(&cs, 0) {
        Ok(Some((x, e))) => Ok((rest_from(input, &cs, e), x)),
        Ok(None) => Err(ParseErr::NoMatch),
        Err(e) => Err(e),
    }
}

/// A list at the front of `input` (see the rule `list`).
pub fn list<T: NumTrait + core::str::FromStr>(input: &str) -> (r: Result<(&str, HList<T>), ParseErr>)
    ensures
        match r {
            Ok((rest, l)) => list_rule(input@, 0) matches Some((m, e)) && models(HVal::List(l), m) && rest@
                == input@.skip(e),
            Err(ParseErr::NoMatch) => list_rule(input@, 0) is None,
            Err(ParseErr::BadNumber) => !(list_rule(input@, 0) matches Some((m, _)) && number_free(m)),
        },
{
    let cs = str_chars(input);
    match read_list::<T>(&cs, 0) {
        Ok(Some((x, e))) => Ok((rest_from(input, &cs, e), x)),
        Ok(None) => Err(ParseErr::NoMatch),
        Err(e) => Err(e),
    }
}

/// Grid metadata at the front of `input`: entries separated by spaces, at
/// least one (see `tags`).
pub fn grid_meta<T: NumTrait + core::str::FromStr>(input: &str) -> (r: Result<(&str, HDict<T>), ParseErr>)
    ensures
        match r {
            Ok((rest, d)) => tags(input@, 0) matches Some((es, e)) && models(HVal::Dict(d), ZVal::Dict(es))
                && rest@ == input@.skip(e),
            Err(ParseErr::NoMatch) => tags(input@, 0) is None,
            Err(ParseErr::BadNumber) => !(tags(input@, 0) matches Some((es, f)) && entries_free(es) && !char_at(input@, f, ':')
                && !char_at(input@, f, ' ')),
        },
{
    let cs = str_chars(input);
    match read_tags::<T>(&cs, 0) {
        Ok(Some((raw, e))) => {
            let ghost rs = raw@;
            let ghost es = tags(cs@, 0).unwrap().0;
            let d = HDict::from_entries(raw);
            proof {
                lemma_dict_models(d, rs, es);
            }
            Ok((rest_from(input, &cs, e), d))
        },
        Ok(None) => Err(ParseErr::NoMatch),
        Err(e) => Err(e),
    }
}

/// The columns of a grid at the front of `input` (see the rule `cols`): each
/// a name, spaces and metadata if any.
pub fn cols<T: NumTrait + core::str::FromStr>(input: &str) -> (r: Result<(&str, Vec<(String, Option<HDict<T>>)>), ParseErr>)
    ensures
        match r {
            Ok((rest, out)) => cols_rule(input@, 0) matches Some((ms, e)) && cols_model(out@, ms) && rest@
                == input@.skip(e),
            Err(ParseErr::NoMatch) => cols_rule(input@, 0) is None,
            Err(ParseErr::BadNumber) => !(cols_rule(input@, 0) matches Some((ms, f)) && cols_free(ms) && col_end_ok(input@, f)
                && !char_at(input@, f, ',')),
        },
{
    let cs = str_chars(input);
    match read_cols::<T>(&cs, 0) {
        Ok(Some((x, e))) => Ok((rest_from(input, &cs, e), x)),
        Ok(None) => Err(ParseErr::NoMatch),
        Err(e) => Err(e),
    }
}

/// What `grid_err` gives for the text `input`: the error grid the rule
/// reads, with the rest after it; `NoMatch` exactly where the rule reads
/// none; `BadNumber` only where the metadata holds a number or the rule reads
/// none.
pub open spec fn grid_err_post<T>(input: Seq<char>, r: Result<(&str, HGrid<T>), ParseErr>) -> bool {
    match r {
        Ok((rest, g)) => grid_err_rule(input, 0) matches Some((d, t, e)) && rest@ == input.skip(e) && (
        g matches HGrid::Error { dis, errTrace } && dis@ == d && (errTrace matches Some(x) && x@ == t)),
        Err(ParseErr::NoMatch) => grid_err_rule(input, 0) is None,
        Err(ParseErr::BadNumber) => !(grid_err_rule(input, 0) is Some && entries_free(err_meta(input, 0))),
    }
}

/// The error grid that a server answers a failed request with (see the rule
/// `grid_err`); the rest is the `empty` line and the line feeds after it.
pub fn grid_err<T: NumTrait + core::str::FromStr>(input: &str) -> (r: Result<(&str, HGrid<T>), ParseErr>)
    ensures
        grid_err_post(input@, r),
{
    let cs = str_chars(input);
    match read_grid_err::<T>(&cs, 0) {
        Ok(Some((x, e))) => Ok((rest_from(input, &cs, e), x)),
        Ok(None) => Err(ParseErr::NoMatch),
        Err(e) => Err(e),
    }
}

/// A grid with no columns (see the rule `grid`); the rest is the `empty`
/// line and the line feeds after it.
pub fn grid<T: NumTrait + core::str::FromStr>(input: &str) -> (r: Result<(&str, HGrid<T>), ParseErr>)
    ensures
        match r {
            Ok((rest, g)) => grid_rule(input@, 0) matches Some((m, e)) && rest@ == input@.skip(e) && (
            g matches HGrid::Empty { meta } && meta_models(meta, m)),
            Err(ParseErr::NoMatch) => grid_rule(input@, 0) is None,
            Err(ParseErr::BadNumber) => !(grid_rule(input@, 0) matches Some((m, _)) && meta_free(m)),
        },
{
    let cs = str_chars(input);
    match read_grid::<T>(&cs, 0) {
        Ok(Some((x, e))) => Ok((rest_from(input, &cs, e), x)),
        Ok(None) => Err(ParseErr::NoMatch),
        Err(e) => Err(e),
    }
}

} // verus!
