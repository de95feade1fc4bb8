//! `bux volume`: named volumes.

use vstd::prelude::*;
use crate::text;

verus! {

/// How a list is printed.
#[derive(Debug, Clone, Copy, PartialEq, Eq, Structural)]
pub enum OutputFormat {
    /// As a table.
    Table,
    /// As JSON.
    Json,
}

/// Subcommands of `bux volume`.
#[derive(Debug)]
pub enum VolumeAction {
    /// Create a named volume.
    Create {
        /// Name.
        name: String,
    },
    /// List named volumes.
    List {
        /// How to print the list.
        format: OutputFormat,
    },
    /// Remove a named volume.
    Rm {
        /// Name.
        name: String,
    },
}

/// What to ask of the volume manager.
#[derive(Debug)]
pub enum VolumeRequest {
    /// Create this volume, then print its name.
    Create(String),
    /// List the volumes, then print them.
    List(OutputFormat),
    /// Remove this volume, then print its name.
    Remove(String),
}

/// What to ask of the volume manager, and what was being done in case it fails.
pub fn dispatch(action: VolumeAction) -> (r: (VolumeRequest, &'static str))
    ensures
        match action {
            VolumeAction::Create { name } => r.0 == VolumeRequest::Create(name) && r.1@
                == "create volume"@,
            VolumeAction::List { format } => r.0 == VolumeRequest::List(format) && r.1@
                == "list volumes"@,
            VolumeAction::Rm { name } => r.0 == VolumeRequest::Remove(name) && r.1@
                == "remove volume"@,
        },
{
    match action {
        VolumeAction::Create { name } => (VolumeRequest::Create(name), "create volume"),
        VolumeAction::List { format } => (VolumeRequest::List(format), "list volumes"),
        VolumeAction::Rm { name } => (VolumeRequest::Remove(name), "remove volume"),
    }
}

/// A named volume.
#[derive(Debug)]
pub struct VolumeRow {
    /// Name.
    pub name: String,
    /// Directory.
    pub path: String,
}

/// A line of the table.
pub open spec fn row_text(name: Seq<char>, path: Seq<char>) -> Seq<char> {
    text::pad_right(name, 24) + " "@ + path
}

/// The table: a header and a line for each volume, or a remark that there are
/// none.
pub open spec fn table(vols: Seq<VolumeRow>) -> Seq<Seq<char>> {
    if vols.len() == 0 {
        seq!["No volumes."@]
    } else {
        seq![row_text("NAME"@, "PATH"@)] + Seq::new(
            vols.len(),
            |i: int| row_text(vols[i].name@, vols[i].path@),
        )
    }
}

/// The lines to print for a list of volumes; `None` where it is printed as
/// JSON.
pub fn list(format: OutputFormat, vols: &Vec<VolumeRow>) -> (r: Option<Vec<String>>)
    ensures
        match format {
            OutputFormat::Json => r is None,
            OutputFormat::Table => r matches Some(lines) && text::views(lines@) == table(vols@),
        },
{
    match format {
        OutputFormat::Json => None,
        OutputFormat::Table => {
            let mut lines: Vec<String> = Vec::new();
            if vols.len() == 0 {
                lines.push("No volumes.".to_owned());
                assert(text::views(lines@) =~= table(vols@));
                return Some(lines);
            }
            let ghost rows = Seq::new(
                vols@.len(),
                |i: int| row_text(vols@[i].name@, vols@[i].path@),
            );
            let head = text::padded("NAME", 24);
            lines.push(text::cat3(head.as_str(), " ", "PATH"));
            let mut i: usize = 0;
            assert(text::views(lines@) =~= seq![row_text("NAME"@, "PATH"@)] + rows.take(0));
            while i < vols.len()
                invariant
                    i <= vols.len(),
                    rows == Seq::new(
                        vols@.len(),
                        |i: int| row_text(vols@[i].name@, vols@[i].path@),
                    ),
                    text::views(lines@) == seq![row_text("NAME"@, "PATH"@)] + rows.take(i as int),
                decreases vols.len() - i,
            {
                let ghost before = text::views(lines@);
                let name = text::padded(vols[i].name.as_str(), 24);
                lines.push(text::cat3(name.as_str(), " ", vols[i].path.as_str()));
                assert(text::views(lines@) =~= before.push(rows[i as int]));
                assert(seq![row_text("NAME"@, "PATH"@)] + rows.take(i + 1) =~= before.push(
                    rows[i as int],
                ));
                i = i + 1;
            }
            assert(rows.take(vols.len() as int) =~= rows);
            Some(lines)
        },
    }
}

/// A table has a header and one line for each volume.
pub proof fn law_one_line_per_volume(vols: Seq<VolumeRow>)
    requires
        vols.len() > 0,
    ensures
        table(vols).len() == vols.len() + 1,
        forall|i: int|
            0 <= i < vols.len() ==> table(vols)[i + 1] == row_text(
                #[trigger] vols[i].name@,
                vols[i].path@,
            ),
{
}

/// A line of the table shows a volume's name at its beginning and its path at
/// its end, with nothing but spaces between them; the paths of names that fit
/// stand in one column.
pub proof fn law_rows_show_name_and_path(name: Seq<char>, path: Seq<char>)
    ensures
        ({
            let r = row_text(name, path);
            let column: nat = if name.len() < 24 {
                25
            } else {
                name.len() + 1
            };
            &&& r.len() == column + path.len()
            &&& r.take(name.len() as int) == name
            &&& r.skip(column as int) == path
            &&& forall|i: int| name.len() <= i < column ==> #[trigger] r[i] == ' '
        }),
{
    reveal_strlit(" ");
    let r = row_text(name, path);
    let column: nat = if name.len() < 24 {
        25
    } else {
        name.len() + 1
    };
    assert(r.take(name.len() as int) =~= name);
    assert(r.skip(column as int) =~= path);
}

/// The table has a header and then a line for each volume, in order; without
/// volumes it says so.
pub proof fn law_table_lists_each_volume(vols: Seq<VolumeRow>)
    ensures
        vols.len() == 0 ==> table(vols) == seq!["No volumes."@],
        vols.len() > 0 ==> {
            &&& table(vols).len() == vols.len() + 1
            &&& table(vols)[0] == row_text("NAME"@, "PATH"@)
            &&& forall|i: int|
                0 <= i < vols.len() ==> #[trigger] table(vols)[i + 1] == row_text(
                    vols[i].name@,
                    vols[i].path@,
                )
        },
{
}

} // verus!
