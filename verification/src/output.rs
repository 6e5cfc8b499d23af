//! Output persistence: validating a target path, the overwrite guard, and
//! rendering a job's rows into the exact text that goes to disk.
//!
//! The file system itself is an external collaborator. This module asks it
//! only two yes/no questions, through the trusted wrappers [`path_exists`]
//! and [`path_is_file`]; every decision taken on the answers, and the whole
//! rendering of rows into CRLF-terminated lines, is verified here. The
//! caller that owns the file handle writes the planned text or nothing.

use vstd::prelude::*;
use vstd::string::StringExecFns;

verus! {

/// The terminator written after every rendered row.
pub open spec fn crlf() -> Seq<char> {
    "\r\n"@
}

/// One row of output: its glyph cells concatenated, with no separator.
pub open spec fn render_row_spec(cells: Seq<Seq<char>>) -> Seq<char>
    decreases cells.len(),
{
    if cells.len() == 0 {
        Seq::empty()
    } else {
        render_row_spec(cells.drop_last()) + cells.last()
    }
}

/// A whole job's output: every row in input order, each followed by CRLF.
pub open spec fn render_rows_spec(rows: Seq<Seq<Seq<char>>>) -> Seq<char>
    decreases rows.len(),
{
    if rows.len() == 0 {
        Seq::empty()
    } else {
        render_rows_spec(rows.drop_last()) + render_row_spec(rows.last()) + crlf()
    }
}

/// The diagnostic text returned when the target exists and overwriting is
/// disallowed.
pub open spec fn exists_message(file: Seq<char>) -> Seq<char> {
    "File at "@ + file + " already exists, and overwrite is set to false"@
}

/// The diagnostic text returned when a conversion source is not an
/// existing regular file.
pub open spec fn invalid_message(path: Seq<char>) -> Seq<char> {
    "Path at "@ + path + " is not a valid file!"@
}

/// Relies on std::path::Path::exists: whether anything is at this path in
/// the file system right now. The answer depends on the disk, so nothing
/// is promised of it.
#[verifier::external_body]
fn path_exists(path: &str) -> bool {
    std::path::Path::new(path).exists()
}

/// Relies on std::path::Path::is_file: whether this path names an existing
/// regular file (so neither a directory nor a missing path). The answer
/// depends on the disk, so nothing is promised of it.
#[verifier::external_body]
fn path_is_file(path: &str) -> bool {
    std::path::Path::new(path).is_file()
}

fn exists_error(file: &str) -> (r: String)
    ensures
        r@ == exists_message(file@),
{
    let mut m = "File at ".to_owned();
    m.append(file);
    m.append(" already exists, and overwrite is set to false");
    m
}

fn invalid_error(path: &str) -> (r: String)
    ensures
        r@ == invalid_message(path@),
{
    let mut m = "Path at ".to_owned();
    m.append(path);
    m.append(" is not a valid file!");
    m
}

/// The overwrite guard, decided on a known answer about the target: writing
/// to `file` is refused exactly when something already exists there and
/// `overwrite` is false; nothing on disk is touched by the refusal.
pub fn overwrite_guard(file: &str, exists: bool, overwrite: bool) -> (r: Result<(), String>)
    ensures
        r is Ok <==> (overwrite || !exists),
        r is Err ==> r->Err_0@ == exists_message(file@),
{
    if !overwrite && exists {
        Err(exists_error(file))
    } else {
        Ok(())
    }
}

/// Ask the file system about `file` and apply the overwrite guard. With
/// `overwrite` set the check always passes; a refusal can only mean the
/// target existed when the disk was asked.
pub fn check_file_exists(file: &str, overwrite: bool) -> (r: Result<(), String>)
    ensures
        overwrite ==> r is Ok,
        r is Err ==> !overwrite && r->Err_0@ == exists_message(file@),
{
    overwrite_guard(file, path_exists(file), overwrite)
}

/// The source-validity decision on a known answer about the path: a path
/// is accepted as a conversion source exactly when it names an existing
/// regular file.
pub fn source_guard(path: &str, is_file: bool) -> (r: Result<(), String>)
    ensures
        r is Ok <==> is_file,
        r is Err ==> r->Err_0@ == invalid_message(path@),
{
    if !is_file {
        Err(invalid_error(path))
    } else {
        Ok(())
    }
}

/// Ask the file system about `path` and accept it as a conversion source
/// only if it names an existing regular file; a directory or a missing
/// path is refused.
pub fn check_valid_file(path: &str) -> (r: Result<(), String>)
    ensures
        r is Err ==> r->Err_0@ == invalid_message(path@),
{
    source_guard(path, path_is_file(path))
}

/// Concatenate one row's glyph cells, in order, with no separator.
pub fn render_row(cells: &Vec<String>) -> (out: String)
    ensures
        out@ == render_row_spec(cells.deep_view()),
{
    let ghost dv = cells.deep_view();
    let mut out = String::new();
    let mut i: usize = 0;
    while i < cells.len()
        invariant
            i <= cells.len(),
            dv == cells.deep_view(),
            dv.len() == cells.len(),
            out@ == render_row_spec(dv.take(i as int)),
        decreases cells.len() - i,
    {
        out.append(cells[i].as_str());
        proof {
            assert(dv.take(i + 1).drop_last() =~= dv.take(i as int));
            assert(dv.take(i + 1).last() == dv[i as int]);
        }
        i += 1;
    }
    proof {
        assert(dv.take(cells.len() as int) =~= dv);
    }
    out
}

/// Render a whole job's output: each row's cells concatenated, each row
/// followed by CRLF, rows in input order.
pub fn render_rows(rows: &Vec<Vec<String>>) -> (out: String)
    ensures
        out@ == render_rows_spec(rows.deep_view()),
{
    let ghost dv = rows.deep_view();
    let mut out = String::new();
    let mut i: usize = 0;
    while i < rows.len()
        invariant
            i <= rows.len(),
            dv == rows.deep_view(),
            dv.len() == rows.len(),
            out@ == render_rows_spec(dv.take(i as int)),
        decreases rows.len() - i,
    {
        let line = render_row(&rows[i]);
        out.append(line.as_str());
        out.append("\r\n");
        proof {
            assert(dv.take(i + 1).drop_last() =~= dv.take(i as int));
            assert(dv.take(i + 1).last() == dv[i as int]);
        }
        i += 1;
    }
    proof {
        assert(dv.take(rows.len() as int) =~= dv);
    }
    out
}

/// The compute side of a write, decided on a known answer about the
/// target: apply the overwrite guard, and on success hand back the file's
/// full new contents — exactly the rendered rows, each terminated by CRLF,
/// in input order. The caller persists those bytes or, on a refusal,
/// changes nothing.
pub fn plan_write(
    output_file: &str,
    exists: bool,
    overwrite: bool,
    rows: &Vec<Vec<String>>,
) -> (r: Result<String, String>)
    ensures
        r is Ok <==> (overwrite || !exists),
        r matches Ok(text) ==> text@ == render_rows_spec(rows.deep_view()),
        r matches Err(e) ==> e@ == exists_message(output_file@),
{
    match overwrite_guard(output_file, exists, overwrite) {
        Ok(()) => Ok(render_rows(rows)),
        Err(e) => Err(e),
    }
}

/// Everything of `write_to_file` that is not the file handle itself: ask
/// the file system about the target, apply the overwrite guard, and render
/// the rows into the text to persist. With `overwrite` set the plan always
/// succeeds.
pub fn prepare_write(
    output_file: &str,
    overwrite: bool,
    rows: &Vec<Vec<String>>,
) -> (r: Result<String, String>)
    ensures
        overwrite ==> r is Ok,
        r matches Ok(text) ==> text@ == render_rows_spec(rows.deep_view()),
        r matches Err(e) ==> !overwrite && e@ == exists_message(output_file@),
{
    plan_write(output_file, path_exists(output_file), overwrite, rows)
}

} // verus!
