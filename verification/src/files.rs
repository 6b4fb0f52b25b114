use vstd::prelude::*;

use crate::text::{Style, StyledRun};

verus! {

// Colour indices carried in `Style`; the renderer resolves them to terminal
// colours. Zero is the terminal's own default.
pub const COLOR_DEFAULT: u32 = 0;
pub const COLOR_BLACK: u32 = 1;
pub const COLOR_RED: u32 = 2;
pub const COLOR_GREEN: u32 = 3;
pub const COLOR_YELLOW: u32 = 4;
pub const COLOR_BLUE: u32 = 5;
pub const COLOR_MAGENTA: u32 = 6;
pub const COLOR_CYAN: u32 = 7;
pub const COLOR_WHITE: u32 = 8;

// Modifier flags carried in `Style`.
pub const MOD_DIM: u16 = 1;
pub const MOD_BOLD: u16 = 2;

// Unix permission bits, as POSIX fixes them.
pub const USER_READ: u32 = 0o400;
pub const USER_WRITE: u32 = 0o200;
pub const USER_EXECUTE: u32 = 0o100;
pub const GROUP_READ: u32 = 0o040;
pub const GROUP_WRITE: u32 = 0o020;
pub const GROUP_EXECUTE: u32 = 0o010;
pub const OTHER_READ: u32 = 0o004;
pub const OTHER_WRITE: u32 = 0o002;
pub const OTHER_EXECUTE: u32 = 0o001;

/// What kind of directory entry a row stands for. `DotDot` is the synthetic
/// parent-directory entry at the top of a listing.
#[derive(Debug, Clone, Copy, PartialEq, Eq, Structural, PartialOrd, Ord)]
pub enum FileType {
    File,
    SymLink,
    Dir,
    Other,
    DotDot,
}

/// The classic owner/group/other read, write and execute bits.
#[derive(Debug, Clone, Copy, PartialEq, Eq, Structural)]
pub struct Permissions {
    pub user_read: bool,
    pub user_write: bool,
    pub user_execute: bool,
    pub group_read: bool,
    pub group_write: bool,
    pub group_execute: bool,
    pub other_read: bool,
    pub other_write: bool,
    pub other_execute: bool,
}

impl Permissions {
    /// Decodes a Unix mode word: each flag is set exactly when its bit is.
    pub fn from_mode(bits: u32) -> (r: Permissions)
        ensures
            r.user_read == (bits & USER_READ == USER_READ),
            r.user_write == (bits & USER_WRITE == USER_WRITE),
            r.user_execute == (bits & USER_EXECUTE == USER_EXECUTE),
            r.group_read == (bits & GROUP_READ == GROUP_READ),
            r.group_write == (bits & GROUP_WRITE == GROUP_WRITE),
            r.group_execute == (bits & GROUP_EXECUTE == GROUP_EXECUTE),
            r.other_read == (bits & OTHER_READ == OTHER_READ),
            r.other_write == (bits & OTHER_WRITE == OTHER_WRITE),
            r.other_execute == (bits & OTHER_EXECUTE == OTHER_EXECUTE),
    {
        Permissions {
            user_read: bits & USER_READ == USER_READ,
            user_write: bits & USER_WRITE == USER_WRITE,
            user_execute: bits & USER_EXECUTE == USER_EXECUTE,
            group_read: bits & GROUP_READ == GROUP_READ,
            group_write: bits & GROUP_WRITE == GROUP_WRITE,
            group_execute: bits & GROUP_EXECUTE == GROUP_EXECUTE,
            other_read: bits & OTHER_READ == OTHER_READ,
            other_write: bits & OTHER_WRITE == OTHER_WRITE,
            other_execute: bits & OTHER_EXECUTE == OTHER_EXECUTE,
        }
    }
}

/// What is known about a directory entry besides its name: timestamps as
/// seconds since the epoch, where the host gave one.
#[derive(Debug, Clone, Copy, PartialEq, Eq, Structural)]
pub struct Metadata {
    pub accessed: Option<i64>,
    pub created: Option<i64>,
    pub modified: Option<i64>,
    pub len: u64,
    pub permissions: Permissions,
}

/// One directory entry, as the listing shows it.
#[derive(Debug)]
pub struct File {
    pub path: String,
    pub name: String,
    pub ext: Option<String>,
    pub metadata: Metadata,
    pub file_type: FileType,
}

impl File {
    pub fn is_file(&self) -> (r: bool)
        ensures
            r == (self.file_type == FileType::File),
    {
        matches!(self.file_type, FileType::File)
    }

    pub fn is_dir(&self) -> (r: bool)
        ensures
            r == (self.file_type == FileType::Dir),
    {
        matches!(self.file_type, FileType::Dir)
    }

    pub fn is_symlink(&self) -> (r: bool)
        ensures
            r == (self.file_type == FileType::SymLink),
    {
        matches!(self.file_type, FileType::SymLink)
    }

    pub fn is_dot_dot(&self) -> (r: bool)
        ensures
            r == (self.file_type == FileType::DotDot),
    {
        matches!(self.file_type, FileType::DotDot)
    }

    /// The synthetic parent-directory entry: named "..", empty metadata.
    pub fn new_dot_dot(path: String) -> (r: File)
        ensures
            r.path == path,
            r.name@ == ".."@,
            r.ext is None,
            r.metadata.accessed is None,
            r.metadata.created is None,
            r.metadata.modified is None,
            r.metadata.len == 0,
            r.file_type == FileType::DotDot,
    {
        File {
            path,
            name: "..".to_owned(),
            ext: None,
            metadata: Metadata {
                accessed: None,
                created: None,
                modified: None,
                len: 0,
                permissions: Permissions::from_mode(0),
            },
            file_type: FileType::DotDot,
        }
    }
}

/// The pending action a row is marked with.
#[derive(Debug, Clone, Copy, PartialEq, Eq, Structural)]
pub enum Mark {
    Unmarked,
    Delete,
    Upload,
}

impl Mark {
    /// The word shown in the action column.
    pub fn symbol(&self) -> (r: &'static str)
        ensures
            self == Mark::Delete ==> r@ == "Delete"@,
            self == Mark::Upload ==> r@ == "Upload"@,
            self == Mark::Unmarked ==> r@ == ""@,
    {
        match self {
            Mark::Delete => "Delete",
            Mark::Upload => "Upload",
            Mark::Unmarked => "",
        }
    }
}

/// The styles a file listing draws with, as one bundle of plain values.
#[derive(Debug, Clone, Copy, PartialEq, Eq, Structural)]
pub struct FeStyleSet {
    pub mark: Style,
    pub cursor_select: Style,
    pub highlight: Style,
    pub size: Style,
    pub datetime: Style,
    pub directory: Style,
    pub dot_dot: Style,
    pub file: Style,
    pub sym_link: Style,
    pub other: Style,
    pub dashed: Style,
    pub user_read: Style,
    pub user_write: Style,
    pub user_execute: Style,
    pub group_read: Style,
    pub group_write: Style,
    pub group_execute: Style,
    pub other_read: Style,
    pub other_write: Style,
    pub other_execute: Style,
}

/// A palette for the file listing: each method hands out one entry of the
/// bundle that `styles` describes.
pub trait FeStyles {
    spec fn styles(&self) -> FeStyleSet;

    fn mark(&self) -> (r: Style)
        ensures
            r == self.styles().mark,
    ;

    fn cursor_select(&self) -> (r: Style)
        ensures
            r == self.styles().cursor_select,
    ;

    fn highlight(&self) -> (r: Style)
        ensures
            r == self.styles().highlight,
    ;

    fn size(&self) -> (r: Style)
        ensures
            r == self.styles().size,
    ;

    fn datetime(&self) -> (r: Style)
        ensures
            r == self.styles().datetime,
    ;

    fn directory(&self) -> (r: Style)
        ensures
            r == self.styles().directory,
    ;

    fn dot_dot(&self) -> (r: Style)
        ensures
            r == self.styles().dot_dot,
    ;

    fn file(&self) -> (r: Style)
        ensures
            r == self.styles().file,
    ;

    fn sym_link(&self) -> (r: Style)
        ensures
            r == self.styles().sym_link,
    ;

    fn other(&self) -> (r: Style)
        ensures
            r == self.styles().other,
    ;

    fn dashed(&self) -> (r: Style)
        ensures
            r == self.styles().dashed,
    ;

    fn user_read(&self) -> (r: Style)
        ensures
            r == self.styles().user_read,
    ;

    fn user_write(&self) -> (r: Style)
        ensures
            r == self.styles().user_write,
    ;

    fn user_execute(&self) -> (r: Style)
        ensures
            r == self.styles().user_execute,
    ;

    fn group_read(&self) -> (r: Style)
        ensures
            r == self.styles().group_read,
    ;

    fn group_write(&self) -> (r: Style)
        ensures
            r == self.styles().group_write,
    ;

    fn group_execute(&self) -> (r: Style)
        ensures
            r == self.styles().group_execute,
    ;

    fn other_read(&self) -> (r: Style)
        ensures
            r == self.styles().other_read,
    ;

    fn other_write(&self) -> (r: Style)
        ensures
            r == self.styles().other_write,
    ;

    fn other_execute(&self) -> (r: Style)
        ensures
            r == self.styles().other_execute,
    ;
}

/// The style a file name is drawn in, by the kind of entry.
pub open spec fn name_style(ss: FeStyleSet, file_type: FileType) -> Style {
    match file_type {
        FileType::DotDot => ss.dot_dot,
        FileType::Dir => ss.directory,
        FileType::File => ss.file,
        FileType::Other => ss.other,
        FileType::SymLink => ss.sym_link,
    }
}

/// The name column: the whole name in its kind's style, or, when a search
/// match is given as a span of character positions, the name in three runs
/// with the matched middle highlighted.
pub fn render_name<S: FeStyles>(
    name: &str,
    matched: Option<(usize, usize)>,
    style: &S,
    file_type: FileType,
) -> (r: Vec<StyledRun>)
    requires
        match matched {
            Some((sidx, eidx)) => sidx <= eidx <= name@.len(),
            None => true,
        },
    ensures
        match matched {
            Some((sidx, eidx)) => {
                &&& r@.len() == 3
                &&& r@[0].content@ == name@.subrange(0, sidx as int)
                &&& r@[0].style == name_style(style.styles(), file_type)
                &&& r@[1].content@ == name@.subrange(sidx as int, eidx as int)
                &&& r@[1].style == style.styles().highlight
                &&& r@[2].content@ == name@.subrange(eidx as int, name@.len() as int)
                &&& r@[2].style == name_style(style.styles(), file_type)
            },
            None => {
                &&& r@.len() == 1
                &&& r@[0].content@ == name@
                &&& r@[0].style == name_style(style.styles(), file_type)
            },
        },
{
    let normal = match file_type {
        FileType::DotDot => style.dot_dot(),
        FileType::Dir => style.directory(),
        FileType::File => style.file(),
        FileType::Other => style.other(),
        FileType::SymLink => style.sym_link(),
    };
    let mut r: Vec<StyledRun> = Vec::new();
    match matched {
        Some((sidx, eidx)) => {
            let n = name.unicode_len();
            let head = name.substring_char(0, sidx);
            let mid = name.substring_char(sidx, eidx);
            let tail = name.substring_char(eidx, n);
            r.push(StyledRun { content: head.to_owned(), style: normal });
            r.push(StyledRun { content: mid.to_owned(), style: style.highlight() });
            r.push(StyledRun { content: tail.to_owned(), style: normal });
        },
        None => {
            r.push(StyledRun { content: name.to_owned(), style: normal });
        },
    }
    r
}

/// One permission cell: the flag's letter in its style when set, a dimmed
/// dash when not.
pub open spec fn permission_cell(set: bool, letter: Seq<char>, on: Style, ss: FeStyleSet, run: StyledRun) -> bool {
    if set {
        run.content@ == letter && run.style == on
    } else {
        run.content@ == "-"@ && run.style == ss.dashed
    }
}

/// The permissions column: a kind letter and the nine permission bits, each
/// as its letter when set or a dimmed dash when clear; empty for the
/// parent-directory entry.
pub fn render_permission<S: FeStyles>(p: Permissions, style: &S, file_type: FileType) -> (r: Vec<
    StyledRun,
>)
    ensures
        file_type == FileType::DotDot ==> r@.len() == 0,
        file_type != FileType::DotDot ==> {
            let ss = style.styles();
            &&& r@.len() == 10
            &&& (file_type == FileType::Dir ==> r@[0].content@ == "d"@ && r@[0].style
                == ss.directory)
            &&& (file_type == FileType::File ==> r@[0].content@ == "."@ && r@[0].style == ss.file)
            &&& (file_type == FileType::SymLink ==> r@[0].content@ == "s"@ && r@[0].style
                == ss.sym_link)
            &&& (file_type == FileType::Other ==> r@[0].content@ == "?"@ && r@[0].style == ss.other)
            &&& permission_cell(p.user_read, "r"@, ss.user_read, ss, r@[1])
            &&& permission_cell(p.user_write, "w"@, ss.user_write, ss, r@[2])
            &&& permission_cell(p.user_execute, "x"@, ss.user_execute, ss, r@[3])
            &&& permission_cell(p.group_read, "r"@, ss.group_read, ss, r@[4])
            &&& permission_cell(p.group_write, "w"@, ss.group_write, ss, r@[5])
            &&& permission_cell(p.group_execute, "x"@, ss.group_execute, ss, r@[6])
            &&& permission_cell(p.other_read, "r"@, ss.other_read, ss, r@[7])
            &&& permission_cell(p.other_write, "w"@, ss.other_write, ss, r@[8])
            &&& permission_cell(p.other_execute, "x"@, ss.other_execute, ss, r@[9])
        },
{
    let mut r: Vec<StyledRun> = Vec::new();
    let ft = match file_type {
        FileType::DotDot => {
            return r;
        },
        FileType::Dir => StyledRun { content: "d".to_owned(), style: style.directory() },
        FileType::File => StyledRun { content: ".".to_owned(), style: style.file() },
        FileType::SymLink => StyledRun { content: "s".to_owned(), style: style.sym_link() },
        FileType::Other => StyledRun { content: "?".to_owned(), style: style.other() },
    };
    r.push(ft);
    r.push(permission_bit(p.user_read, "r", style.user_read(), style.dashed()));
    r.push(permission_bit(p.user_write, "w", style.user_write(), style.dashed()));
    r.push(permission_bit(p.user_execute, "x", style.user_execute(), style.dashed()));
    r.push(permission_bit(p.group_read, "r", style.group_read(), style.dashed()));
    r.push(permission_bit(p.group_write, "w", style.group_write(), style.dashed()));
    r.push(permission_bit(p.group_execute, "x", style.group_execute(), style.dashed()));
    r.push(permission_bit(p.other_read, "r", style.other_read(), style.dashed()));
    r.push(permission_bit(p.other_write, "w", style.other_write(), style.dashed()));
    r.push(permission_bit(p.other_execute, "x", style.other_execute(), style.dashed()));
    r
}

/// One permission bit as a styled run.
fn permission_bit(set: bool, letter: &str, on: Style, dashed: Style) -> (r: StyledRun)
    ensures
        set ==> r.content@ == letter@ && r.style == on,
        !set ==> r.content@ == "-"@ && r.style == dashed,
{
    if set {
        StyledRun { content: letter.to_owned(), style: on }
    } else {
        StyledRun { content: "-".to_owned(), style: dashed }
    }
}

/// The type column: a plain file's extension, empty otherwise.
pub fn render_type<'n, S: FeStyles>(file_type: FileType, ext: Option<&'n String>, style: &S) -> (r:
    StyledRun)
    ensures
        r.style == Style::plain(),
        match ext {
            Some(e) => r.content@ == if file_type == FileType::File {
                e@
            } else {
                ""@
            },
            None => r.content@ == ""@,
        },
{
    if let Some(e) = ext {
        if matches!(file_type, FileType::File) {
            return StyledRun { content: e.as_str().to_owned(), style: Style::default() };
        }
    }
    StyledRun { content: "".to_owned(), style: Style::default() }
}

/// The colour scheme of the whole program.
#[derive(Copy, Clone, PartialEq, Eq, Structural, Debug)]
pub enum Theme {
    Standard,
}

impl Default for Theme {
    fn default() -> (r: Self)
        ensures
            r == Theme::Standard,
    {
        Theme::Standard
    }
}

/// A foreground-only style.
pub open spec fn spec_fg(c: u32) -> Style {
    Style { fg: c, bg: COLOR_DEFAULT, modifiers: 0 }
}

/// A foreground style with modifier flags.
pub open spec fn spec_fg_mod(c: u32, m: u16) -> Style {
    Style { fg: c, bg: COLOR_DEFAULT, modifiers: m }
}

/// A background-only style.
pub open spec fn spec_bg(c: u32) -> Style {
    Style { fg: COLOR_DEFAULT, bg: c, modifiers: 0 }
}

/// The styles the panels draw their frames and buttons with.
pub trait PanelStyles {
    spec fn panel_styles(&self) -> (Style, Style, Style);

    fn border_active(&self) -> (r: Style)
        ensures
            r == self.panel_styles().0,
    ;

    fn border_inactive(&self) -> (r: Style)
        ensures
            r == self.panel_styles().1,
    ;

    fn btn(&self) -> (r: Style)
        ensures
            r == self.panel_styles().2,
    ;
}

impl PanelStyles for Theme {
    open spec fn panel_styles(&self) -> (Style, Style, Style) {
        (spec_fg(COLOR_GREEN), spec_fg(COLOR_WHITE), spec_bg(COLOR_RED))
    }

    fn border_active(&self) -> Style {
        Style { fg: COLOR_GREEN, bg: COLOR_DEFAULT, modifiers: 0 }
    }

    fn border_inactive(&self) -> Style {
        Style { fg: COLOR_WHITE, bg: COLOR_DEFAULT, modifiers: 0 }
    }

    fn btn(&self) -> Style {
        Style { fg: COLOR_DEFAULT, bg: COLOR_RED, modifiers: 0 }
    }
}

impl FeStyles for Theme {
    open spec fn styles(&self) -> FeStyleSet {
        FeStyleSet {
            mark: spec_fg(COLOR_RED),
            cursor_select: spec_bg(COLOR_YELLOW),
            highlight: Style { fg: COLOR_WHITE, bg: COLOR_RED, modifiers: 0 },
            size: spec_fg(COLOR_GREEN),
            datetime: spec_fg(COLOR_BLUE),
            directory: spec_fg(COLOR_BLUE),
            dot_dot: spec_fg(COLOR_BLUE),
            file: Style::plain(),
            sym_link: spec_fg(COLOR_CYAN),
            other: spec_fg(COLOR_YELLOW),
            dashed: spec_fg_mod(COLOR_DEFAULT, MOD_DIM),
            user_read: spec_fg_mod(COLOR_YELLOW, MOD_BOLD),
            user_write: spec_fg_mod(COLOR_RED, MOD_BOLD),
            user_execute: spec_fg_mod(COLOR_GREEN, MOD_BOLD),
            group_read: spec_fg(COLOR_YELLOW),
            group_write: spec_fg(COLOR_RED),
            group_execute: spec_fg(COLOR_GREEN),
            other_read: spec_fg(COLOR_YELLOW),
            other_write: spec_fg(COLOR_RED),
            other_execute: spec_fg(COLOR_GREEN),
        }
    }

    fn mark(&self) -> Style {
        Style { fg: COLOR_RED, bg: COLOR_DEFAULT, modifiers: 0 }
    }

    fn cursor_select(&self) -> Style {
        Style { fg: COLOR_DEFAULT, bg: COLOR_YELLOW, modifiers: 0 }
    }

    fn highlight(&self) -> Style {
        Style { fg: COLOR_WHITE, bg: COLOR_RED, modifiers: 0 }
    }

    fn size(&self) -> Style {
        Style { fg: COLOR_GREEN, bg: COLOR_DEFAULT, modifiers: 0 }
    }

    fn datetime(&self) -> Style {
        Style { fg: COLOR_BLUE, bg: COLOR_DEFAULT, modifiers: 0 }
    }

    fn directory(&self) -> Style {
        Style { fg: COLOR_BLUE, bg: COLOR_DEFAULT, modifiers: 0 }
    }

    fn dot_dot(&self) -> Style {
        Style { fg: COLOR_BLUE, bg: COLOR_DEFAULT, modifiers: 0 }
    }

    fn file(&self) -> Style {
        Style { fg: COLOR_DEFAULT, bg: COLOR_DEFAULT, modifiers: 0 }
    }

    fn sym_link(&self) -> Style {
        Style { fg: COLOR_CYAN, bg: COLOR_DEFAULT, modifiers: 0 }
    }

    fn other(&self) -> Style {
        Style { fg: COLOR_YELLOW, bg: COLOR_DEFAULT, modifiers: 0 }
    }

    fn dashed(&self) -> Style {
        Style { fg: COLOR_DEFAULT, bg: COLOR_DEFAULT, modifiers: MOD_DIM }
    }

    fn user_read(&self) -> Style {
        Style { fg: COLOR_YELLOW, bg: COLOR_DEFAULT, modifiers: MOD_BOLD }
    }

    fn user_write(&self) -> Style {
        Style { fg: COLOR_RED, bg: COLOR_DEFAULT, modifiers: MOD_BOLD }
    }

    fn user_execute(&self) -> Style {
        Style { fg: COLOR_GREEN, bg: COLOR_DEFAULT, modifiers: MOD_BOLD }
    }

    fn group_read(&self) -> Style {
        Style { fg: COLOR_YELLOW, bg: COLOR_DEFAULT, modifiers: 0 }
    }

    fn group_write(&self) -> Style {
        Style { fg: COLOR_RED, bg: COLOR_DEFAULT, modifiers: 0 }
    }

    fn group_execute(&self) -> Style {
        Style { fg: COLOR_GREEN, bg: COLOR_DEFAULT, modifiers: 0 }
    }

    fn other_read(&self) -> Style {
        Style { fg: COLOR_YELLOW, bg: COLOR_DEFAULT, modifiers: 0 }
    }

    fn other_write(&self) -> Style {
        Style { fg: COLOR_RED, bg: COLOR_DEFAULT, modifiers: 0 }
    }

    fn other_execute(&self) -> Style {
        Style { fg: COLOR_GREEN, bg: COLOR_DEFAULT, modifiers: 0 }
    }
}

} // verus!
