//! Windows system facts read from `wmic` CSV output: startup programs and the
//! paging file, and the records of disk advice and instance migration.
use vstd::prelude::*;
use crate::text;

verus! {

/// A program started with Windows.
#[derive(Debug, Clone)]
pub struct StartupProgram {
    pub name: String,
    pub command: String,
    pub source: String,
}

/// The paging file and whether it is large enough.
#[derive(Debug, Clone)]
pub struct PagingFileStatus {
    pub current_size_mb: u64,
    pub max_size_mb: u64,
    pub drive: String,
    pub is_system_managed: bool,
    pub is_adequate: bool,
    pub recommended_size_mb: u64,
}

/// A warning about disk space.
#[derive(Debug, Clone)]
pub struct DiskWarning {
    pub severity: String,
    pub message: String,
}

/// How far an instance migration has come.
#[derive(Debug, Clone)]
pub struct MigrationProgress {
    pub files_copied: usize,
    pub total_files: usize,
    pub bytes_copied: u64,
    pub current_file: String,
}

/// A startup program as name, command and source.
pub type ProgramText = (Seq<char>, Seq<char>, Seq<char>);

pub open spec fn program_views(v: Seq<StartupProgram>) -> Seq<ProgramText> {
    Seq::new(v.len(), |i: int| (v[i].name@, v[i].command@, v[i].source@))
}

/// The program of a CSV row `node,caption,command,location`: a row with at least
/// four fields and a non-empty caption, fields trimmed.
pub open spec fn program_of_row(line: Seq<char>) -> Option<ProgramText> {
    let parts = text::split_char(line, ',');
    if parts.len() >= 4 && text::trim(parts[1]).len() > 0 {
        Some((text::trim(parts[1]), text::trim(parts[2]), text::trim(parts[3])))
    } else {
        None
    }
}

/// The programs of the rows, in order.
pub open spec fn programs_of_rows(ls: Seq<Seq<char>>) -> Seq<ProgramText>
    decreases ls.len(),
{
    if ls.len() == 0 {
        Seq::empty()
    } else {
        let prev = programs_of_rows(ls.drop_last());
        match program_of_row(ls.last()) {
            Some(p) => prev.push(p),
            None => prev,
        }
    }
}

/// The startup programs of `wmic startup get Caption,Command,Location /format:csv`:
/// every line after the first is a row.
pub open spec fn startup_programs_of(out: Seq<char>) -> Seq<ProgramText> {
    let ls = text::lines(out);
    programs_of_rows(if ls.len() > 0 {
        ls.drop_first()
    } else {
        ls
    })
}

/// The startup programs that `wmic` lists.
pub fn parse_startup_csv(output: &str) -> (r: Vec<StartupProgram>)
    ensures
        program_views(r@) == startup_programs_of(output@),
{
    let cs = text::chars_of(output);
    let ls = text::lines_of(&cs);
    let ghost lv = text::vviews(ls@);
    let ghost rows = if lv.len() > 0 {
        lv.drop_first()
    } else {
        lv
    };
    let mut out: Vec<StartupProgram> = Vec::new();
    let mut i: usize = if ls.len() > 0 {
        1
    } else {
        0
    };
    let start = i;
    assert(rows.take(0) == Seq::<Seq<char>>::empty());
    assert(program_views(out@) =~= Seq::<ProgramText>::empty());
    while i < ls.len()
        invariant
            start <= i <= ls.len(),
            start == (if ls.len() > 0 { 1usize } else { 0usize }),
            lv == text::vviews(ls@),
            rows == (if lv.len() > 0 { lv.drop_first() } else { lv }),
            program_views(out@) == programs_of_rows(rows.take(i - start)),
        decreases ls.len() - i,
    {
        assert(rows.take(i - start + 1).drop_last() == rows.take(i - start));
        assert(rows.take(i - start + 1).last() == ls@[i as int]@);
        let parts = text::split_on(&ls[i], ',');
        if parts.len() >= 4 {
            assert(text::vviews(parts@)[1] == parts@[1]@);
            assert(text::vviews(parts@)[2] == parts@[2]@);
            assert(text::vviews(parts@)[3] == parts@[3]@);
            let name = text::trim_vec(&parts[1]);
            if name.len() > 0 {
                let command = text::trim_vec(&parts[2]);
                let source = text::trim_vec(&parts[3]);
                let ghost before = program_views(out@);
                out.push(
                    StartupProgram {
                        name: text::string_of(name.as_slice()),
                        command: text::string_of(command.as_slice()),
                        source: text::string_of(source.as_slice()),
                    },
                );
                assert(program_views(out@) =~= before.push((name@, command@, source@)));
            }
        }
        i = i + 1;
    }
    assert(rows.take(ls.len() - start) == rows);
    out
}

/// The first line that is not blank and does not start with `Node`.
pub open spec fn pagefile_row(ls: Seq<Seq<char>>) -> Option<Seq<char>>
    decreases ls.len(),
{
    if ls.len() == 0 {
        None
    } else if text::trim(ls[0]).len() > 0 && !text::is_prefix("Node"@, ls[0]) {
        Some(ls[0])
    } else {
        pagefile_row(ls.drop_first())
    }
}

/// A CSV field as a `u64`, 0 when missing or not a number.
pub open spec fn field_u64(parts: Seq<Seq<char>>, k: int) -> u64 {
    if k < parts.len() {
        match text::parse_int(text::trim(parts[k]), 0, u64::MAX as int) {
            Some(v) => v as u64,
            None => 0,
        }
    } else {
        0
    }
}

/// The drive of the paging file's name: its first character and `:`, or nothing.
pub open spec fn drive_of(parts: Seq<Seq<char>>) -> Seq<char> {
    if parts.len() > 3 && text::trim(parts[3]).len() > 0 {
        seq![text::trim(parts[3])[0], ':']
    } else {
        Seq::empty()
    }
}

/// The paging file that `wmic pagefile get CurrentUsage,MaximumSize,Name /format:csv`
/// describes, judged for a heap of `xmx_mb`: it should allow one and a half
/// times the heap, or be managed by the system (maximum 0).
pub open spec fn pagefile_status_ok(s: PagingFileStatus, out: Seq<char>, xmx_mb: u32) -> bool {
    match pagefile_row(text::lines(out)) {
        Some(row) => {
            let parts = text::split_char(row, ',');
            let recommended = (xmx_mb as int * 3) / 2;
            &&& s.current_size_mb == field_u64(parts, 1)
            &&& s.max_size_mb == field_u64(parts, 2)
            &&& s.drive@ == drive_of(parts)
            &&& s.is_system_managed == (field_u64(parts, 2) == 0)
            &&& s.is_adequate == (field_u64(parts, 2) >= recommended || field_u64(parts, 2) == 0)
            &&& s.recommended_size_mb == recommended
        },
        None => false,
    }
}

fn field_u64_of(parts: &Vec<Vec<char>>, k: usize) -> (r: u64)
    ensures
        r == field_u64(text::vviews(parts@), k as int),
{
    if k < parts.len() {
        assert(text::vviews(parts@)[k as int] == parts@[k as int]@);
        let t = text::trim_vec(&parts[k]);
        match text::parse_u64(&t) {
            Some(v) => v,
            None => 0,
        }
    } else {
        0
    }
}

/// The paging file of the `wmic` output, if it lists one.
pub fn parse_pagefile_csv(output: &str, xmx_mb: u32) -> (r: Option<PagingFileStatus>)
    ensures
        match r {
            Some(s) => pagefile_status_ok(s, output@, xmx_mb),
            None => pagefile_row(text::lines(output@)) is None,
        },
{
    let cs = text::chars_of(output);
    let ls = text::lines_of(&cs);
    let ghost lv = text::vviews(ls@);
    let mut i: usize = 0;
    assert(lv.skip(0) == lv);
    while i < ls.len()
        invariant
            i <= ls.len(),
            lv == text::vviews(ls@),
            lv == text::lines(output@),
            pagefile_row(lv) == pagefile_row(lv.skip(i as int)),
        decreases ls.len() - i,
    {
        assert(lv.skip(i as int)[0] == ls@[i as int]@);
        assert(lv.skip(i as int).drop_first() == lv.skip(i + 1));
        let t = text::trim_vec(&ls[i]);
        if t.len() > 0 && !text::starts_with_str(&ls[i], "Node") {
            assert(pagefile_row(lv.skip(i as int)) == Some(ls@[i as int]@));
            let parts = text::split_on(&ls[i], ',');
            let current = field_u64_of(&parts, 1);
            let max_size = field_u64_of(&parts, 2);
            let drive = if parts.len() > 3 {
                assert(text::vviews(parts@)[3] == parts@[3]@);
                let d = text::trim_vec(&parts[3]);
                if d.len() > 0 {
                    let mut v: Vec<char> = Vec::new();
                    v.push(d[0]);
                    v.push(':');
                    assert(v@ =~= drive_of(text::vviews(parts@)));
                    v
                } else {
                    let v: Vec<char> = Vec::new();
                    assert(v@ =~= drive_of(text::vviews(parts@)));
                    v
                }
            } else {
                let v: Vec<char> = Vec::new();
                assert(v@ =~= drive_of(text::vviews(parts@)));
                v
            };
            let recommended = (xmx_mb as u64 * 3) / 2;
            return Some(
                PagingFileStatus {
                    current_size_mb: current,
                    max_size_mb: max_size,
                    drive: text::string_of(drive.as_slice()),
                    is_system_managed: max_size == 0,
                    is_adequate: max_size >= recommended || max_size == 0,
                    recommended_size_mb: recommended,
                },
            );
        }
        i = i + 1;
    }
    assert(lv.skip(i as int).len() == 0);
    None
}

} // verus!
