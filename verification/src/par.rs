//! Creating, inspecting and extending provider archives.
//!
//! The archive itself, its signing keys and the files belong to the caller.
//! What is decided here is what each command asks for: which keys in which
//! roles, where a new archive goes, and what is shown of an archive.

use vstd::prelude::*;
use vstd::string::*;

verus! {

/// A command on a provider archive.
#[derive(Clone, Debug, PartialEq, Eq)]
pub struct ParCli {
    pub command: ParCliCommand,
}

/// The commands on a provider archive.
#[derive(Clone, Debug, PartialEq, Eq)]
pub enum ParCliCommand {
    /// Build a provider archive file.
    Create(CreateCommand),
    /// Inspect a provider archive file.
    Inspect(InspectCommand),
    /// Insert a provider into a provider archive file.
    Insert(InsertCommand),
}

/// What the building of an archive is told.
#[derive(Clone, Debug, PartialEq, Eq)]
pub struct CreateCommand {
    /// Capability contract ID.
    pub capid: String,
    /// Vendor of the provider.
    pub vendor: String,
    /// Revision number.
    pub revision: Option<i32>,
    /// Human friendly version.
    pub version: Option<String>,
    /// Directory of the key files.
    pub directory: Option<String>,
    /// Path of the issuer's seed key.
    pub issuer: Option<String>,
    /// Path of the subject's seed key.
    pub subject: Option<String>,
    /// Name of the provider.
    pub name: String,
    /// Architecture of the binary, as ARCH-OS.
    pub arch: String,
    /// Path of the provider binary.
    pub binary: String,
    /// Path of the archive to write.
    pub output: Option<String>,
}

/// What the inspection of an archive is told.
#[derive(Clone, Debug, PartialEq, Eq)]
pub struct InspectCommand {
    /// Path of the archive.
    pub archive: String,
}

/// What the insertion of a binary into an archive is told.
#[derive(Clone, Debug, PartialEq, Eq)]
pub struct InsertCommand {
    /// Path of the archive.
    pub archive: String,
    /// Architecture of the binary, as ARCH-OS.
    pub arch: String,
    /// Path of the provider binary.
    pub binary: String,
    /// Directory of the key files.
    pub directory: Option<String>,
    /// Path of the issuer's seed key.
    pub issuer: Option<String>,
    /// Path of the subject's seed key.
    pub subject: Option<String>,
}

/// The role of a signing key.
#[derive(Clone, Copy, Debug, PartialEq, Eq, Structural)]
pub enum KeyPairType {
    /// The key of the account that issues the claims.
    Account,
    /// The key of the service that the claims are about.
    Service,
}

/// A signing key for the caller to find: under the path given, or else in
/// the key directory under the name of the binary and the role.
#[derive(Clone, Debug, PartialEq, Eq)]
pub struct KeyRequest {
    pub seed: Option<String>,
    pub module: String,
    pub directory: Option<String>,
    pub kind: KeyPairType,
}

/// A `KeyRequest` with its texts as sequences of characters.
pub struct KeyRequestView {
    pub seed: Option<Seq<char>>,
    pub module: Seq<char>,
    pub directory: Option<Seq<char>>,
    pub kind: KeyPairType,
}

impl View for KeyRequest {
    type V = KeyRequestView;

    open spec fn view(&self) -> KeyRequestView {
        KeyRequestView {
            seed: self.seed.deep_view(),
            module: self.module@,
            directory: self.directory.deep_view(),
            kind: self.kind,
        }
    }
}

/// An archive for the caller to build around one binary, sign and write.
#[derive(Clone, Debug, PartialEq, Eq)]
pub struct CreateRequest {
    pub capid: String,
    pub name: String,
    pub vendor: String,
    pub revision: Option<i32>,
    pub version: Option<String>,
    pub arch: String,
    pub binary: String,
    pub issuer: KeyRequest,
    pub subject: KeyRequest,
    /// Path of the archive, where the command named one.
    pub output: Option<String>,
}

/// A `CreateRequest` with its texts as sequences of characters.
pub struct CreateRequestView {
    pub capid: Seq<char>,
    pub name: Seq<char>,
    pub vendor: Seq<char>,
    pub revision: Option<i32>,
    pub version: Option<Seq<char>>,
    pub arch: Seq<char>,
    pub binary: Seq<char>,
    pub issuer: KeyRequestView,
    pub subject: KeyRequestView,
    pub output: Option<Seq<char>>,
}

impl View for CreateRequest {
    type V = CreateRequestView;

    open spec fn view(&self) -> CreateRequestView {
        CreateRequestView {
            capid: self.capid@,
            name: self.name@,
            vendor: self.vendor@,
            revision: self.revision,
            version: self.version.deep_view(),
            arch: self.arch@,
            binary: self.binary@,
            issuer: self.issuer@,
            subject: self.subject@,
            output: self.output.deep_view(),
        }
    }
}

/// An archive for the caller to load and show.
#[derive(Clone, Debug, PartialEq, Eq)]
pub struct InspectRequest {
    pub archive: String,
}

/// An archive for the caller to load, extend by one binary, sign and write
/// back to where it was.
#[derive(Clone, Debug, PartialEq, Eq)]
pub struct InsertRequest {
    pub archive: String,
    pub arch: String,
    pub binary: String,
    pub issuer: KeyRequest,
    pub subject: KeyRequest,
}

/// An `InsertRequest` with its texts as sequences of characters.
pub struct InsertRequestView {
    pub archive: Seq<char>,
    pub arch: Seq<char>,
    pub binary: Seq<char>,
    pub issuer: KeyRequestView,
    pub subject: KeyRequestView,
}

impl View for InsertRequest {
    type V = InsertRequestView;

    open spec fn view(&self) -> InsertRequestView {
        InsertRequestView {
            archive: self.archive@,
            arch: self.arch@,
            binary: self.binary@,
            issuer: self.issuer@,
            subject: self.subject@,
        }
    }
}

/// What a command asks of the caller.
#[derive(Clone, Debug, PartialEq, Eq)]
pub enum ParRequest {
    Create(CreateRequest),
    Inspect(InspectRequest),
    Insert(InsertRequest),
}

/// A `ParRequest` with its texts as sequences of characters.
pub enum ParRequestView {
    Create(CreateRequestView),
    Inspect(Seq<char>),
    Insert(InsertRequestView),
}

impl View for ParRequest {
    type V = ParRequestView;

    open spec fn view(&self) -> ParRequestView {
        match self {
            ParRequest::Create(request) => ParRequestView::Create(request@),
            ParRequest::Inspect(request) => ParRequestView::Inspect(request.archive@),
            ParRequest::Insert(request) => ParRequestView::Insert(request@),
        }
    }
}

/// The key that signs for `binary` in a role: the seed that the command
/// points to, or the one kept for the binary in the key directory.
pub open spec fn key_for(
    seed: Option<Seq<char>>,
    binary: Seq<char>,
    directory: Option<Seq<char>>,
    kind: KeyPairType,
) -> KeyRequestView {
    KeyRequestView { seed, module: binary, directory, kind }
}

/// The ending of a provider archive.
pub open spec fn archive_extension() -> Seq<char> {
    seq!['.', 'p', 'a', 'r']
}

/// The path of a new archive: the one that the command named, else the stem
/// of the binary's file name with `.par` behind it.
pub open spec fn archive_path(output: Option<Seq<char>>, binary_stem: Seq<char>) -> Seq<char> {
    match output {
        Some(path) => path,
        None => binary_stem + archive_extension(),
    }
}

/// Asks for a signing key.
pub fn request_key(
    seed: Option<String>,
    binary: String,
    directory: Option<String>,
    kind: KeyPairType,
) -> (request: KeyRequest)
    ensures
        request@ == key_for(seed.deep_view(), binary@, directory.deep_view(), kind),
{
    KeyRequest { seed, module: binary, directory, kind }
}

/// What the building of an archive takes: the metadata, the binary and its
/// architecture, the issuer's key as an account key and the subject's as a
/// service key, both looked up for the binary in the same directory.
pub open spec fn create_plan(cmd: CreateCommand) -> CreateRequestView {
    CreateRequestView {
        capid: cmd.capid@,
        name: cmd.name@,
        vendor: cmd.vendor@,
        revision: cmd.revision,
        version: cmd.version.deep_view(),
        arch: cmd.arch@,
        binary: cmd.binary@,
        issuer: key_for(
            cmd.issuer.deep_view(),
            cmd.binary@,
            cmd.directory.deep_view(),
            KeyPairType::Account,
        ),
        subject: key_for(
            cmd.subject.deep_view(),
            cmd.binary@,
            cmd.directory.deep_view(),
            KeyPairType::Service,
        ),
        output: cmd.output.deep_view(),
    }
}

/// What the insertion of a binary takes: the archive, the binary and its
/// architecture, and the two keys as for the building of an archive.
pub open spec fn insert_plan(cmd: InsertCommand) -> InsertRequestView {
    InsertRequestView {
        archive: cmd.archive@,
        arch: cmd.arch@,
        binary: cmd.binary@,
        issuer: key_for(
            cmd.issuer.deep_view(),
            cmd.binary@,
            cmd.directory.deep_view(),
            KeyPairType::Account,
        ),
        subject: key_for(
            cmd.subject.deep_view(),
            cmd.binary@,
            cmd.directory.deep_view(),
            KeyPairType::Service,
        ),
    }
}

/// What a command asks of the caller.
pub open spec fn plan(cli: ParCli) -> ParRequestView {
    match cli.command {
        ParCliCommand::Create(cmd) => ParRequestView::Create(create_plan(cmd)),
        ParCliCommand::Inspect(cmd) => ParRequestView::Inspect(cmd.archive@),
        ParCliCommand::Insert(cmd) => ParRequestView::Insert(insert_plan(cmd)),
    }
}

/// Says what the command asks for.
pub fn handle_command(cli: ParCli) -> (request: ParRequest)
    ensures
        request@ == plan(cli),
{
    match cli.command {
        ParCliCommand::Create(cmd) => ParRequest::Create(handle_create(cmd)),
        ParCliCommand::Inspect(cmd) => ParRequest::Inspect(handle_inspect(cmd)),
        ParCliCommand::Insert(cmd) => ParRequest::Insert(handle_insert(cmd)),
    }
}

/// Says what the building of an archive takes.
pub fn handle_create(cmd: CreateCommand) -> (request: CreateRequest)
    ensures
        request@ == create_plan(cmd),
{
    let CreateCommand {
        capid,
        vendor,
        revision,
        version,
        directory,
        issuer,
        subject,
        name,
        arch,
        binary,
        output,
    } = cmd;
    let issuer = request_key(issuer, binary.clone(), directory.clone(), KeyPairType::Account);
    let subject = request_key(subject, binary.clone(), directory, KeyPairType::Service);
    CreateRequest { capid, name, vendor, revision, version, arch, binary, issuer, subject, output }
}

/// Says which archive to load and show.
pub fn handle_inspect(cmd: InspectCommand) -> (request: InspectRequest)
    ensures
        request.archive@ == cmd.archive@,
{
    InspectRequest { archive: cmd.archive }
}

/// Says what the insertion of a binary takes.
pub fn handle_insert(cmd: InsertCommand) -> (request: InsertRequest)
    ensures
        request@ == insert_plan(cmd),
{
    let InsertCommand { archive, arch, binary, directory, issuer, subject } = cmd;
    let issuer = request_key(issuer, binary.clone(), directory.clone(), KeyPairType::Account);
    let subject = request_key(subject, binary.clone(), directory, KeyPairType::Service);
    InsertRequest { archive, arch, binary, issuer, subject }
}

/// Calls `Path::file_stem` of std on the path and hands the stem out as a
/// string, if the path has one. Trusted, and nothing is claimed of the
/// result: what counts as a separator in a path is the operating system's to
/// say, so the same characters need not give the same stem everywhere.
#[verifier::external_body]
fn file_stem(path: &str) -> (stem: Option<String>) {
    std::path::Path::new(path).file_stem().and_then(|stem| stem.to_str()).map(String::from)
}

/// The path to write a new archive to: the one that the command named, else
/// the stem of the binary's file name with `.par` behind it. There is no
/// path where the command names none and the binary's path names no file.
pub fn archive_output(output: Option<String>, binary: &str) -> (path: Option<String>)
    ensures
        output is Some ==> path.deep_view() == output.deep_view(),
        output is None ==> (path matches Some(p) ==> exists|stem: Seq<char>|
            p@ == #[trigger] archive_path(None, stem)),
{
    match output {
        Some(given) => Some(given),
        None => match file_stem(binary) {
            Some(stem) => {
                let path = create_output(None, stem.as_str());
                assert(path@ == archive_path(None, stem@));
                Some(path)
            },
            None => None,
        },
    }
}

/// The path to write a new archive to. `binary_stem` is the file name of the
/// binary without its last ending.
pub fn create_output(output: Option<String>, binary_stem: &str) -> (path: String)
    ensures
        path@ == archive_path(output.deep_view(), binary_stem@),
{
    proof {
        reveal_strlit(".par");
        assert(".par"@ =~= archive_extension());
    }
    match output {
        Some(path) => path,
        None => String::from_str(binary_stem).concat(".par"),
    }
}

/// How the text of a cell is set within its columns.
#[derive(Clone, Copy, Debug, PartialEq, Eq, Structural)]
pub enum Alignment {
    Left,
    Right,
    Center,
}

/// A cell of a table: a text over one or more columns.
#[derive(Clone, Debug, PartialEq, Eq)]
pub struct TableCell {
    pub data: String,
    pub col_span: usize,
    pub alignment: Alignment,
}

/// A `TableCell` with its text as a sequence of characters.
pub struct CellView {
    pub data: Seq<char>,
    pub col_span: usize,
    pub alignment: Alignment,
}

impl View for TableCell {
    type V = CellView;

    open spec fn view(&self) -> CellView {
        CellView { data: self.data@, col_span: self.col_span, alignment: self.alignment }
    }
}

/// What is shown of an archive.
#[derive(Clone, Debug, PartialEq, Eq)]
pub struct ArchiveSummary {
    /// Name of the provider.
    pub name: String,
    /// Capability contract ID.
    pub capid: String,
    /// Vendor of the provider.
    pub vendor: String,
    /// The architectures that the archive holds a binary for.
    pub targets: Vec<String>,
}

/// The widest that a column of the table gets.
pub const MAX_COLUMN_WIDTH: usize = 68;

/// The views of some strings.
pub open spec fn texts(lines: Seq<String>) -> Seq<Seq<char>> {
    lines.map_values(|line: String| line@)
}

/// The views of the cells of some rows.
pub open spec fn cells(rows: Seq<Vec<TableCell>>) -> Seq<Seq<CellView>> {
    rows.map_values(|row: Vec<TableCell>| row@.map_values(|cell: TableCell| cell@))
}

/// Some lines with a line break between each two.
pub open spec fn joined(lines: Seq<Seq<char>>) -> Seq<char>
    decreases lines.len(),
{
    if lines.len() == 0 {
        Seq::empty()
    } else if lines.len() == 1 {
        lines[0]
    } else {
        joined(lines.drop_last()) + seq!['\n'] + lines.last()
    }
}

/// The words behind the name of the provider in the title of the table.
pub open spec fn title_suffix() -> Seq<char> {
    " - Provider Archive"@
}

/// The table shown of an archive, row by row: a centred title over both
/// columns, the contract ID and the vendor each beside its caption, a centred
/// caption for the targets, and the targets one per line.
pub open spec fn summary_rows(
    name: Seq<char>,
    capid: Seq<char>,
    vendor: Seq<char>,
    targets: Seq<Seq<char>>,
) -> Seq<Seq<CellView>> {
    seq![
        seq![CellView { data: name + title_suffix(), col_span: 2, alignment: Alignment::Center }],
        seq![
            CellView {
                data: "Capability Contract ID"@,
                col_span: 1,
                alignment: Alignment::Left,
            },
            CellView { data: capid, col_span: 1, alignment: Alignment::Right },
        ],
        seq![
            CellView { data: "Vendor"@, col_span: 1, alignment: Alignment::Left },
            CellView { data: vendor, col_span: 1, alignment: Alignment::Right },
        ],
        seq![
            CellView {
                data: "Supported Architecture Targets"@,
                col_span: 2,
                alignment: Alignment::Center,
            },
        ],
        seq![CellView { data: joined(targets), col_span: 2, alignment: Alignment::Left }],
    ]
}

/// Joins lines with a line break between each two.
pub fn join_lines(lines: &Vec<String>) -> (text: String)
    ensures
        text@ == joined(texts(lines@)),
{
    let ghost all = texts(lines@);
    let mut text = String::new();
    let mut i: usize = 0;
    while i < lines.len()
        invariant
            i <= lines.len(),
            all == texts(lines@),
            text@ == joined(all.take(i as int)),
        decreases lines.len() - i,
    {
        let ghost before = text@;
        if i > 0 {
            proof {
                reveal_strlit("\n");
                assert("\n"@ =~= seq!['\n']);
            }
            text.append("\n");
        }
        text.append(lines[i].as_str());
        proof {
            let next = all.take(i + 1);
            assert(next.drop_last() =~= all.take(i as int));
            assert(next.last() == lines@[i as int]@);
            if i == 0 {
                assert(text@ =~= next[0]);
            }
        }
        i += 1;
    }
    assert(all.take(i as int) =~= all);
    text
}

/// A row of one cell.
fn single(cell: TableCell) -> (row: Vec<TableCell>)
    ensures
        row@ == seq![cell],
{
    let mut row: Vec<TableCell> = Vec::new();
    row.push(cell);
    row
}

/// A row of a caption and, set to the right, what it names.
fn captioned(caption: &str, value: String) -> (row: Vec<TableCell>)
    ensures
        row@.map_values(|cell: TableCell| cell@) == seq![
            CellView { data: caption@, col_span: 1, alignment: Alignment::Left },
            CellView { data: value@, col_span: 1, alignment: Alignment::Right },
        ],
{
    let mut row: Vec<TableCell> = Vec::new();
    row.push(
        TableCell { data: String::from_str(caption), col_span: 1, alignment: Alignment::Left },
    );
    row.push(TableCell { data: value, col_span: 1, alignment: Alignment::Right });
    assert(row@.map_values(|cell: TableCell| cell@) =~= seq![
        CellView { data: caption@, col_span: 1, alignment: Alignment::Left },
        CellView { data: value@, col_span: 1, alignment: Alignment::Right },
    ]);
    row
}

/// Lays out what is shown of an archive.
pub fn inspect_rows(summary: ArchiveSummary) -> (rows: Vec<Vec<TableCell>>)
    ensures
        cells(rows@) == summary_rows(
            summary.name@,
            summary.capid@,
            summary.vendor@,
            texts(summary.targets@),
        ),
{
    let ArchiveSummary { name, capid, vendor, targets } = summary;
    let title = TableCell {
        data: name.concat(" - Provider Archive"),
        col_span: 2,
        alignment: Alignment::Center,
    };
    let caption = TableCell {
        data: String::from_str("Supported Architecture Targets"),
        col_span: 2,
        alignment: Alignment::Center,
    };
    let listing = TableCell {
        data: join_lines(&targets),
        col_span: 2,
        alignment: Alignment::Left,
    };
    let mut rows: Vec<Vec<TableCell>> = Vec::new();
    rows.push(single(title));
    rows.push(captioned("Capability Contract ID", capid));
    rows.push(captioned("Vendor", vendor));
    rows.push(single(caption));
    rows.push(single(listing));
    proof {
        let expected = summary_rows(name@, capid@, vendor@, texts(targets@));
        assert(cells(rows@).len() == expected.len());
        assert forall|i: int| 0 <= i < 5 implies cells(rows@)[i] =~= expected[i] by {}
        assert(cells(rows@) =~= expected);
    }
    rows
}

} // verus!
