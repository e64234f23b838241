//! Configuration values, their defaults, and the rules that turn them into
//! drawing settings and file paths.

use crate::canvas::{Color, Scalar, ToolKind, FOUR_BITS, SIXTEEN_BITS};
use vstd::prelude::*;
use vstd::string::StringExecFns;

verus! {

fn lit(s: &str) -> (r: String)
    ensures
        r@ == s@,
{
    s.to_owned()
}

/// The values a missing `[defaults]` key takes.
pub open spec fn default_values(d: Defaults) -> bool {
    &&& d.color@ == "#ff3232"@
    &&& d.width == Scalar { bits: FOUR_BITS }
    &&& d.counter_radius == Scalar { bits: SIXTEEN_BITS }
    &&& d.pixelate_block == 10
    &&& d.initial_tool@ == "rect"@
    &&& d.save_dir@ == "~/Pictures/screenshots"@
    &&& d.filename_pattern@ == "%Y%m%d-%H%M%S.png"@
}

/// The `[defaults]` table.
#[derive(Debug, Clone)]
pub struct Defaults {
    /// Annotation color, `#rrggbb` or `#rrggbbaa`.
    pub color: String,
    /// Stroke width.
    pub width: Scalar,
    /// Marker bubble radius.
    pub counter_radius: Scalar,
    /// Blur cell size in pixels.
    pub pixelate_block: u32,
    /// Tool armed when the overlay opens (empty or unknown: none).
    pub initial_tool: String,
    /// Directory for automatic file names; `~` means the home directory.
    pub save_dir: String,
    /// strftime pattern of automatic file names.
    pub filename_pattern: String,
}

impl Default for Defaults {
    fn default() -> (d: Self)
        ensures
            default_values(d),
    {
        Defaults {
            color: lit("#ff3232"),
            width: Scalar { bits: FOUR_BITS },
            counter_radius: Scalar { bits: SIXTEEN_BITS },
            pixelate_block: 10,
            initial_tool: lit("rect"),
            save_dir: lit("~/Pictures/screenshots"),
            filename_pattern: lit("%Y%m%d-%H%M%S.png"),
        }
    }
}

/// The `[capture]` table.
#[derive(Debug, Clone, Copy, PartialEq, Eq, Structural)]
pub struct CaptureCfg {
    /// Composite the X11 cursor into screenshots.
    pub include_cursor: bool,
}

impl Default for CaptureCfg {
    fn default() -> (c: Self)
        ensures
            !c.include_cursor,
    {
        CaptureCfg { include_cursor: false }
    }
}

pub open spec fn default_palette() -> Seq<Seq<char>> {
    seq![
        "#ff3232"@,
        "#ffc800"@,
        "#50c850"@,
        "#32b4dc"@,
        "#4664dc"@,
        "#c850c8"@,
        "#ffffff"@,
        "#000000"@,
    ]
}

/// The `[palette]` table.
#[derive(Debug, Clone)]
pub struct Palette {
    pub colors: Vec<String>,
}

impl Default for Palette {
    /// Red, amber, green, cyan, blue, magenta, white, black.
    fn default() -> (p: Self)
        ensures
            p.colors@.len() == 8,
            forall|i: int| 0 <= i < 8 ==> #[trigger] p.colors@[i]@ == default_palette()[i],
    {
        let colors = vec![
            lit("#ff3232"),
            lit("#ffc800"),
            lit("#50c850"),
            lit("#32b4dc"),
            lit("#4664dc"),
            lit("#c850c8"),
            lit("#ffffff"),
            lit("#000000"),
        ];
        Palette { colors }
    }
}

/// The whole configuration file; every table and key is optional.
#[derive(Debug, Clone)]
pub struct Config {
    pub defaults: Defaults,
    pub capture: CaptureCfg,
    pub palette: Palette,
}

impl Default for Config {
    fn default() -> (c: Self)
        ensures
            default_values(c.defaults),
            !c.capture.include_cursor,
            c.palette.colors@.len() == 8,
            forall|i: int| 0 <= i < 8 ==> #[trigger] c.palette.colors@[i]@ == default_palette()[i],
    {
        Config { defaults: Defaults::default(), capture: CaptureCfg::default(), palette: Palette::default() }
    }
}

/// Value of a hexadecimal digit, either case.
pub open spec fn hex_value(c: char) -> Option<u8> {
    if '0' <= c <= '9' {
        Some((c as u32 - '0' as u32) as u8)
    } else if 'a' <= c <= 'f' {
        Some((c as u32 - 'a' as u32 + 10) as u8)
    } else if 'A' <= c <= 'F' {
        Some((c as u32 - 'A' as u32 + 10) as u8)
    } else {
        None
    }
}

fn hex_digit(c: char) -> (r: Option<u8>)
    ensures
        r == hex_value(c),
{
    if '0' <= c && c <= '9' {
        Some((c as u32 - '0' as u32) as u8)
    } else if 'a' <= c && c <= 'f' {
        Some((c as u32 - 'a' as u32 + 10) as u8)
    } else if 'A' <= c && c <= 'F' {
        Some((c as u32 - 'A' as u32 + 10) as u8)
    } else {
        None
    }
}

/// The byte spelled by the two hex digits at `i` and `i + 1`.
pub open spec fn hex_byte(s: Seq<char>, i: int) -> Option<u8> {
    match (hex_value(s[i]), hex_value(s[i + 1])) {
        (Some(hi), Some(lo)) => Some((hi * 16 + lo) as u8),
        _ => None,
    }
}

/// `#rrggbb` (opaque) or `#rrggbbaa`, hex digits of either case.
pub open spec fn spec_parse_color(s: Seq<char>) -> Option<Color> {
    if (s.len() == 7 || s.len() == 9) && s[0] == '#' {
        match (hex_byte(s, 1), hex_byte(s, 3), hex_byte(s, 5)) {
            (Some(r), Some(g), Some(b)) => if s.len() == 7 {
                Some(Color { r, g, b, a: 255 })
            } else {
                match hex_byte(s, 7) {
                    Some(a) => Some(Color { r, g, b, a }),
                    None => None,
                }
            },
            _ => None,
        }
    } else {
        None
    }
}

fn read_hex_byte(s: &str, i: usize) -> (r: Option<u8>)
    requires
        i + 1 < s@.len(),
        i < 8,
    ensures
        r == hex_byte(s@, i as int),
{
    let hi = hex_digit(s.get_char(i));
    let lo = hex_digit(s.get_char(i + 1));
    match (hi, lo) {
        (Some(h), Some(l)) => Some(h * 16 + l),
        _ => None,
    }
}

/// Parse a color written `#rrggbb` or `#rrggbbaa`.
pub fn parse_color(s: &str) -> (r: Option<Color>)
    ensures
        r == spec_parse_color(s@),
{
    let n = s.unicode_len();
    if !((n == 7 || n == 9) && s.get_char(0) == '#') {
        return None;
    }
    let r = read_hex_byte(s, 1);
    let g = read_hex_byte(s, 3);
    let b = read_hex_byte(s, 5);
    match (r, g, b) {
        (Some(r), Some(g), Some(b)) => {
            if n == 7 {
                Some(Color { r, g, b, a: 255 })
            } else {
                match read_hex_byte(s, 7) {
                    Some(a) => Some(Color { r, g, b, a }),
                    None => None,
                }
            }
        },
        _ => None,
    }
}

/// Tool names as the configuration spells them.
pub open spec fn spec_parse_tool(s: Seq<char>) -> Option<ToolKind> {
    if s == "pencil"@ {
        Some(ToolKind::Pencil)
    } else if s == "arrow"@ {
        Some(ToolKind::Arrow)
    } else if s == "rect"@ {
        Some(ToolKind::Rect)
    } else if s == "ellipse"@ {
        Some(ToolKind::Ellipse)
    } else if s == "blur"@ {
        Some(ToolKind::Blur)
    } else if s == "counter"@ {
        Some(ToolKind::Counter)
    } else {
        None
    }
}

fn str_eq(a: &str, b: &str) -> (r: bool)
    ensures
        r == (a@ == b@),
{
    let n = a.unicode_len();
    if n != b.unicode_len() {
        return false;
    }
    let mut i: usize = 0;
    while i < n
        invariant
            n == a@.len(),
            n == b@.len(),
            i <= n,
            forall|k: int| 0 <= k < i ==> a@[k] == b@[k],
        decreases n - i,
    {
        if a.get_char(i) != b.get_char(i) {
            return false;
        }
        i = i + 1;
    }
    proof {
        assert(a@ =~= b@);
    }
    true
}

/// Parse a tool name: pencil, arrow, rect, ellipse, blur or counter.
pub fn parse_tool(s: &str) -> (r: Option<ToolKind>)
    ensures
        r == spec_parse_tool(s@),
{
    if str_eq(s, "pencil") {
        Some(ToolKind::Pencil)
    } else if str_eq(s, "arrow") {
        Some(ToolKind::Arrow)
    } else if str_eq(s, "rect") {
        Some(ToolKind::Rect)
    } else if str_eq(s, "ellipse") {
        Some(ToolKind::Ellipse)
    } else if str_eq(s, "blur") {
        Some(ToolKind::Blur)
    } else if str_eq(s, "counter") {
        Some(ToolKind::Counter)
    } else {
        None
    }
}

/// The colors of the palette that parse, in order; the others are skipped.
pub open spec fn spec_palette_colors(names: Seq<String>) -> Seq<Color>
    decreases names.len(),
{
    if names.len() == 0 {
        Seq::empty()
    } else {
        let rest = spec_palette_colors(names.drop_last());
        match spec_parse_color(names.last()@) {
            Some(c) => rest.push(c),
            None => rest,
        }
    }
}

pub fn palette_colors(names: &Vec<String>) -> (r: Vec<Color>)
    ensures
        r@ == spec_palette_colors(names@),
{
    let mut out: Vec<Color> = Vec::new();
    let n = names.len();
    let mut i: usize = 0;
    while i < n
        invariant
            n == names@.len(),
            i <= n,
            out@ == spec_palette_colors(names@.take(i as int)),
        decreases n - i,
    {
        proof {
            assert(names@.take(i + 1).drop_last() =~= names@.take(i as int));
        }
        if let Some(c) = parse_color(names[i].as_str()) {
            out.push(c);
        }
        i = i + 1;
    }
    proof {
        assert(names@.take(n as int) =~= names@);
    }
    out
}

/// The text that `std::path::Path::join` gives on Unix for `base` and
/// `part`: a part that starts with `/` is absolute and replaces the base;
/// otherwise the part follows the base, with a `/` between the two unless
/// the base is empty or already ends in one.
pub open spec fn spec_path_join(base: Seq<char>, part: Seq<char>) -> Seq<char> {
    if part.len() > 0 && part[0] == '/' {
        part
    } else if base.len() == 0 || base.last() == '/' {
        base + part
    } else {
        base + seq!['/'] + part
    }
}

/// `base` and `part` joined as `std::path::Path::join` joins Unix paths,
/// as text.
pub fn path_join(base: &str, part: &str) -> (r: String)
    ensures
        r@ == spec_path_join(base@, part@),
{
    let pn = part.unicode_len();
    if pn > 0 && part.get_char(0) == '/' {
        return part.to_owned();
    }
    let bn = base.unicode_len();
    let mut out = base.to_owned();
    if bn > 0 && base.get_char(bn - 1) != '/' {
        let sep = "/";
        proof {
            reveal_strlit("/");
        }
        out.append(sep);
        assert(sep@ =~= seq!['/']);
    }
    out.append(part);
    out
}

/// `~/rest` becomes `rest` joined to the home directory and `~` becomes the
/// home directory, when the home directory is known; anything else stays.
pub open spec fn spec_expand_tilde(p: Seq<char>, home: Option<Seq<char>>) -> Seq<char> {
    if p.len() >= 2 && p[0] == '~' && p[1] == '/' && home is Some {
        spec_path_join(home->0, p.subrange(2, p.len() as int))
    } else if p == "~"@ && home is Some {
        home->0
    } else {
        p
    }
}

pub fn expand_tilde(p: &str, home: Option<&str>) -> (r: String)
    ensures
        r@ == spec_expand_tilde(p@, match home {
            Some(h) => Some(h@),
            None => None,
        }),
{
    let n = p.unicode_len();
    if n >= 2 && p.get_char(0) == '~' && p.get_char(1) == '/' {
        if let Some(h) = home {
            let rest = p.substring_char(2, n);
            return path_join(h, rest);
        }
    }
    if str_eq(p, "~") {
        if let Some(h) = home {
            return h.to_owned();
        }
    }
    p.to_owned()
}

/// The file name that `chrono` gives for `pattern` (a strftime pattern) at
/// `secs` seconds after the Unix epoch, shown at `offset` seconds east of
/// UTC; `None` where the instant or offset is out of range or the pattern
/// cannot be formatted.
pub uninterp spec fn formatted_time(secs: i64, offset: i32, pattern: Seq<char>) -> Option<Seq<char>>;

/// Formats the instant `secs` (whole seconds after the Unix epoch) at the
/// fixed offset `offset` (seconds east of UTC) with the strftime `pattern`,
/// through `chrono::DateTime::from_timestamp`, `chrono::FixedOffset::east_opt`
/// and `DelayedFormat::write_to`. Trusted: the result is the named
/// `formatted_time` of the three arguments; an offset of a day or more
/// (`east_opt` refuses it), a timestamp out of range or a pattern that fails
/// to format gives `None`. What the text looks like is
/// left to the name.
#[verifier::external_body]
fn format_time(secs: i64, offset: i32, pattern: &str) -> (r: Option<String>)
    ensures
        !(-86_400 < offset < 86_400) ==> r is None,
        match r {
            Some(s) => formatted_time(secs, offset, pattern@) == Some(s@),
            None => formatted_time(secs, offset, pattern@) is None,
        },
{
    let utc = chrono::DateTime::from_timestamp(secs, 0)?;
    let zone = chrono::FixedOffset::east_opt(offset)?;
    let mut out = String::new();
    match utc.with_timezone(&zone).format(pattern).write_to(&mut out) {
        Ok(()) => Some(out),
        Err(_) => None,
    }
}

/// Where an automatic save goes: the strftime `pattern` applied to the
/// instant `secs` at the local offset `offset`, as a file name in `save_dir`
/// with `~` expanded; `None` where the pattern cannot be formatted.
pub fn auto_save_path(save_dir: &str, pattern: &str, secs: i64, offset: i32, home: Option<&str>) -> (r: Option<String>)
    ensures
        match formatted_time(secs, offset, pattern@) {
            Some(f) => r is Some && r->0@ == spec_path_join(
                spec_expand_tilde(save_dir@, match home {
                    Some(h) => Some(h@),
                    None => None,
                }),
                f,
            ),
            None => r is None,
        },
{
    match format_time(secs, offset, pattern) {
        Some(file_name) => {
            let dir = expand_tilde(save_dir, home);
            Some(path_join(dir.as_str(), file_name.as_str()))
        },
        None => None,
    }
}

/// `rustshot/config.toml` under the user's configuration directory, or
/// under the working directory when there is none.
pub fn config_path(config_dir: Option<&str>) -> (r: String)
    ensures
        r@ == spec_path_join(
            spec_path_join(match config_dir {
                Some(d) => d@,
                None => "."@,
            }, "rustshot"@),
            "config.toml"@,
        ),
{
    let base = match config_dir {
        Some(d) => d,
        None => ".",
    };
    let app = path_join(base, "rustshot");
    path_join(app.as_str(), "config.toml")
}

} // verus!
