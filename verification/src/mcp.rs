//! What a command-line argument struct becomes as a tool: how its fields are
//! classified, which flag each gets, and how names are derived.

use vstd::prelude::*;
use vstd::string::*;

verus! {

/// Whether `c` is an uppercase letter.
pub uninterp spec fn char_is_uppercase(c: char) -> bool;

/// The first character of the lowercase form of `c`.
pub uninterp spec fn char_to_lowercase(c: char) -> char;

/// `char::is_uppercase`: whether `c` has the `Uppercase` property. The
/// answer depends on `c` alone.
#[verifier::external_body]
fn is_uppercase(c: char) -> (upper: bool)
    ensures
        upper == char_is_uppercase(c),
{
    c.is_uppercase()
}

/// `char::to_lowercase`, of which the first character is taken; the
/// lowercase form of a character has at least one. It depends on `c` alone.
#[verifier::external_body]
fn to_lowercase(c: char) -> (lower: char)
    ensures
        lower == char_to_lowercase(c),
{
    c.to_lowercase().next().unwrap()
}

/// Whether `c` is white space.
pub uninterp spec fn char_is_whitespace(c: char) -> bool;

/// `char::is_whitespace`: whether `c` has the `White_Space` property. The
/// answer depends on `c` alone.
#[verifier::external_body]
fn is_whitespace(c: char) -> (space: bool)
    ensures
        space == char_is_whitespace(c),
{
    c.is_whitespace()
}

/// `String::push`: appends `c` to the end of `s`.
#[verifier::external_body]
fn push_char(s: &mut String, c: char)
    ensures
        final(s)@ == old(s)@.push(c),
{
    s.push(c)
}

/// Whether two strings hold the same characters.
pub fn str_eq(a: &str, b: &str) -> (eq: bool)
    ensures
        eq == (a@ == b@),
{
    let x = String::from_str(a);
    let y = String::from_str(b);
    x == y
}

/// `s` with every `from` replaced by `to`.
pub open spec fn replaced(s: Seq<char>, from: char, to: char) -> Seq<char> {
    Seq::new(
        s.len(),
        |i: int|
            if s[i] == from {
                to
            } else {
                s[i]
            },
    )
}

/// Replaces every `from` in `s` by `to`.
pub fn replace_char(s: &str, from: char, to: char) -> (out: String)
    ensures
        out@ == replaced(s@, from, to),
{
    let mut out = String::new();
    let len = s.unicode_len();
    let mut i: usize = 0;
    while i < len
        invariant
            i <= len,
            len == s@.len(),
            out@ == replaced(s@.subrange(0, i as int), from, to),
        decreases len - i,
    {
        let c = s.get_char(i);
        push_char(
            &mut out,
            if c == from {
                to
            } else {
                c
            },
        );
        assert(out@ =~= replaced(s@.subrange(0, i + 1), from, to));
        i += 1;
    }
    assert(s@.subrange(0, len as int) == s@);
    out
}

/// What one character adds to a name in snake case: an underscore before an
/// uppercase character that is not the first, then the lowercase form of the
/// character.
pub open spec fn snake_step(out: Seq<char>, first: bool, upper: bool, lower: char) -> Seq<char> {
    if upper && !first {
        out.push('_').push(lower)
    } else {
        out.push(lower)
    }
}

/// The snake case form of a name in Pascal case.
pub open spec fn snake(s: Seq<char>) -> Seq<char>
    decreases s.len(),
{
    if s.len() == 0 {
        Seq::empty()
    } else {
        snake_step(
            snake(s.drop_last()),
            s.len() == 1,
            char_is_uppercase(s.last()),
            char_to_lowercase(s.last()),
        )
    }
}

/// Adds one character to a name in snake case: `upper` says whether the
/// character is uppercase, `lower` is its lowercase form, `first` says
/// whether it is the first of the name.
pub fn push_snake(out: &mut String, first: bool, upper: bool, lower: char)
    ensures
        final(out)@ == snake_step(old(out)@, first, upper, lower),
{
    if upper && !first {
        push_char(out, '_');
    }
    push_char(out, lower);
}

/// Convert `MyStructName` → `my_struct_name` (PascalCase → snake_case).
pub fn to_snake(s: String) -> (out: String)
    ensures
        out@ == snake(s@),
{
    let mut out = String::new();
    let len = s.as_str().unicode_len();
    let mut i: usize = 0;
    while i < len
        invariant
            i <= len,
            len == s@.len(),
            out@ == snake(s@.subrange(0, i as int)),
        decreases len - i,
    {
        let ch = s.as_str().get_char(i);
        proof {
            let next = s@.subrange(0, i + 1);
            assert(next.drop_last() =~= s@.subrange(0, i as int));
            assert(next.last() == ch);
        }
        push_snake(&mut out, i == 0, is_uppercase(ch), to_lowercase(ch));
        i += 1;
    }
    assert(s@.subrange(0, len as int) == s@);
    out
}

/// The name of the tool for the command `command`: spaces and hyphens
/// become underscores.
pub fn tool_name(command: &str) -> (name: String)
    ensures
        name@ == replaced(replaced(command@, ' ', '_'), '-', '_'),
{
    let spaced = replace_char(command, ' ', '_');
    replace_char(spaced.as_str(), '-', '_')
}

/// Parsed information from an `arg` attribute.
#[derive(Debug, Clone, PartialEq, Eq)]
pub struct ArgInfo {
    /// True if `long` (or `long = "name"`) was present.
    pub has_long: bool,
    /// Explicit long name. Empty string means "derive from field name".
    pub long_name: String,
    /// `value_delimiter = ','` character, if specified.
    pub value_delimiter: Option<char>,
}

/// [`ArgInfo`] as plain values.
pub struct ArgInfoView {
    /// True if `long` was present.
    pub has_long: bool,
    /// Explicit long name.
    pub long_name: Seq<char>,
    /// The delimiter character.
    pub value_delimiter: Option<char>,
}

impl View for ArgInfo {
    type V = ArgInfoView;

    open spec fn view(&self) -> ArgInfoView {
        ArgInfoView {
            has_long: self.has_long,
            long_name: self.long_name@,
            value_delimiter: self.value_delimiter,
        }
    }
}

impl Default for ArgInfo {
    fn default() -> (info: Self)
        ensures
            info@ == ArgInfoView::empty(),
    {
        Self { has_long: false, long_name: String::new(), value_delimiter: None }
    }
}

/// One item of an `arg` attribute, as far as the tool cares.
#[derive(Debug, Clone, PartialEq, Eq)]
pub enum ArgItem {
    /// `long`
    Long,
    /// `long = ..`, with the name if a string literal gives it.
    LongValue(Option<String>),
    /// `value_delimiter = ..`, with the character if a literal gives it.
    ValueDelimiter(Option<char>),
    /// Anything else.
    Other,
}

/// [`ArgItem`] as plain values.
pub enum ArgItemView {
    /// `long`
    Long,
    /// `long = ..`
    LongValue(Option<Seq<char>>),
    /// `value_delimiter = ..`
    ValueDelimiter(Option<char>),
    /// Anything else.
    Other,
}

impl View for ArgItem {
    type V = ArgItemView;

    open spec fn view(&self) -> ArgItemView {
        match self {
            ArgItem::Long => ArgItemView::Long,
            ArgItem::LongValue(None) => ArgItemView::LongValue(None),
            ArgItem::LongValue(Some(s)) => ArgItemView::LongValue(Some(s@)),
            ArgItem::ValueDelimiter(c) => ArgItemView::ValueDelimiter(*c),
            ArgItem::Other => ArgItemView::Other,
        }
    }
}

impl ArgInfoView {
    /// Nothing was given.
    pub open spec fn empty() -> ArgInfoView {
        ArgInfoView { has_long: false, long_name: Seq::empty(), value_delimiter: None }
    }

    /// The information after `item` was read: a later name or delimiter
    /// replaces an earlier one, if it has a value.
    pub open spec fn with_item(self, item: ArgItemView) -> ArgInfoView {
        match item {
            ArgItemView::Long => ArgInfoView { has_long: true, ..self },
            ArgItemView::LongValue(Some(name)) => ArgInfoView {
                has_long: true,
                long_name: name,
                ..self
            },
            ArgItemView::LongValue(None) => ArgInfoView { has_long: true, ..self },
            ArgItemView::ValueDelimiter(Some(c)) => ArgInfoView {
                value_delimiter: Some(c),
                ..self
            },
            _ => self,
        }
    }

    /// The information after the items were read in turn.
    pub open spec fn with_items(self, items: Seq<ArgItemView>) -> ArgInfoView
        decreases items.len(),
    {
        if items.len() == 0 {
            self
        } else {
            self.with_items(items.drop_last()).with_item(items.last())
        }
    }
}

/// Parse all the items of the `arg` attributes on a field into a single
/// `ArgInfo`.
pub fn parse_arg_attrs(items: &Vec<ArgItem>) -> (info: ArgInfo)
    ensures
        info@ == ArgInfoView::empty().with_items(items@.map_values(|i: ArgItem| i@)),
{
    let mut info = ArgInfo::default();

    let ghost all = items@.map_values(|i: ArgItem| i@);
    let mut k: usize = 0;
    while k < items.len()
        invariant
            k <= items@.len(),
            all == items@.map_values(|i: ArgItem| i@),
            info@ == ArgInfoView::empty().with_items(all.subrange(0, k as int)),
        decreases items@.len() - k,
    {
        proof {
            let next = all.subrange(0, k + 1);
            assert(next.drop_last() =~= all.subrange(0, k as int));
            assert(next.last() == items@[k as int]@);
        }
        match &items[k] {
            ArgItem::Long => {
                info.has_long = true;
            },
            ArgItem::LongValue(value) => {
                info.has_long = true;
                if let Some(s) = value {
                    info.long_name = s.clone();
                }
            },
            ArgItem::ValueDelimiter(value) => {
                if let Some(c) = value {
                    info.value_delimiter = Some(*c);
                }
            },
            ArgItem::Other => {},
        }
        k += 1;
    }
    assert(all.subrange(0, items@.len() as int) == all);

    info
}

/// The kinds of types that a field is told apart by.
#[derive(Debug, Clone, Copy, PartialEq, Eq, Structural)]
pub enum TypeClass {
    /// `bool`
    Bool,
    /// usize / u32 / u64 / i64 / i32
    Integer,
    /// An optional value.
    Optional,
    /// A list of values.
    List,
    /// enums, String, PathBuf, etc. — treated as required string
    Other,
}

/// The shape of a type, as far as it is classified.
#[derive(Debug, Clone, PartialEq, Eq)]
pub enum TypeShape {
    /// A path, with or without a qualified self type, and the names of its
    /// segments.
    Path {
        /// Whether the path has a qualified self type.
        has_qself: bool,
        /// The names of the segments.
        segments: Vec<String>,
    },
    /// Any other type.
    NotPath,
}

impl TypeShape {
    /// The class of a type of this shape: only a path of one segment
    /// without a qualified self type is told apart by its name, everything
    /// else is [`TypeClass::Other`].
    pub open spec fn class(self) -> TypeClass {
        match self {
            TypeShape::Path { has_qself, segments } => if !has_qself && segments@.len() == 1 {
                class_of_name(segments@[0]@)
            } else {
                TypeClass::Other
            },
            TypeShape::NotPath => TypeClass::Other,
        }
    }
}

/// The class of the type with the one-segment path `name`.
pub open spec fn class_of_name(name: Seq<char>) -> TypeClass {
    if name == "bool"@ {
        TypeClass::Bool
    } else if name == "usize"@ || name == "u32"@ || name == "u64"@ || name == "i64"@ || name
        == "i32"@ {
        TypeClass::Integer
    } else if name == "Option"@ {
        TypeClass::Optional
    } else if name == "Vec"@ {
        TypeClass::List
    } else {
        TypeClass::Other
    }
}

/// The class of the type with the one-segment path `name`.
pub fn classify_name(name: &str) -> (class: TypeClass)
    ensures
        class == class_of_name(name@),
{
    if str_eq(name, "bool") {
        TypeClass::Bool
    } else if str_eq(name, "usize") || str_eq(name, "u32") || str_eq(name, "u64") || str_eq(
        name,
        "i64",
    ) || str_eq(name, "i32") {
        TypeClass::Integer
    } else if str_eq(name, "Option") {
        TypeClass::Optional
    } else if str_eq(name, "Vec") {
        TypeClass::List
    } else {
        TypeClass::Other
    }
}

/// Classifies a type.
pub fn classify_type(ty: &TypeShape) -> (class: TypeClass)
    ensures
        class == ty.class(),
{
    match ty {
        TypeShape::NotPath => TypeClass::Other,
        TypeShape::Path { has_qself, segments } => {
            if *has_qself {
                return TypeClass::Other;
            }
            if segments.len() != 1 {
                return TypeClass::Other;
            }
            classify_name(segments[0].as_str())
        },
    }
}

/// How to emit CLI args for a field.
#[derive(Debug, Clone, Copy, PartialEq, Eq)]
pub enum CliKind {
    /// bool flag: emit `--flag` if `Some(true)`.
    BoolFlag,
    /// Optional string value with named flag: `--flag value`.
    NamedOpt,
    /// Positional optional string: emit value if `Some(v)`.
    PositionalOpt,
    /// Vec with value_delimiter: `--flag a,b,c` if `Some(values)`.
    VecDelimited {
        /// The delimiter.
        delimiter: char,
    },
    /// Vec positional with defaults: emit each value if `Some(values)`.
    VecPositional,
    /// Vec named without delimiter: `--flag a --flag b`.
    VecNamedMulti,
    /// Optional integer value with named flag: `--flag N`.
    NamedInt,
    /// Required positional string (no long, no Option).
    RequiredPositional,
}

/// How the args of a field of class `tc` are emitted.
pub open spec fn spec_cli_kind(tc: TypeClass, has_long: bool, delimiter: Option<char>) -> CliKind {
    match tc {
        TypeClass::Bool => CliKind::BoolFlag,
        TypeClass::Optional => if has_long {
            CliKind::NamedOpt
        } else {
            CliKind::PositionalOpt
        },
        TypeClass::List => if has_long {
            match delimiter {
                Some(d) => CliKind::VecDelimited { delimiter: d },
                None => CliKind::VecNamedMulti,
            }
        } else {
            CliKind::VecPositional
        },
        TypeClass::Integer => CliKind::NamedInt,
        TypeClass::Other => if has_long {
            CliKind::NamedOpt
        } else {
            CliKind::RequiredPositional
        },
    }
}

/// How the args of a field of class `tc` are emitted.
pub fn cli_kind(tc: TypeClass, arg: &ArgInfo) -> (kind: CliKind)
    ensures
        kind == spec_cli_kind(tc, arg@.has_long, arg@.value_delimiter),
{
    match tc {
        TypeClass::Bool => CliKind::BoolFlag,
        TypeClass::Optional => {
            if arg.has_long {
                CliKind::NamedOpt
            } else {
                CliKind::PositionalOpt
            }
        },
        TypeClass::List => {
            if arg.has_long {
                if let Some(delim) = arg.value_delimiter {
                    CliKind::VecDelimited { delimiter: delim }
                } else {
                    CliKind::VecNamedMulti
                }
            } else {
                // Positional vec (e.g. `packages` with default_values_t)
                CliKind::VecPositional
            }
        },
        TypeClass::Integer => {
            // Always treated as an optional named arg in MCP.
            CliKind::NamedInt
        },
        TypeClass::Other => {
            if arg.has_long {
                // Named required-ish — still optional in MCP for flexibility.
                CliKind::NamedOpt
            } else {
                // Positional required arg (e.g. `chip: Chip`).
                CliKind::RequiredPositional
            }
        },
    }
}

/// The CLI flag of the field `ident`: two hyphens and the explicit long
/// name, or else the name of the field with hyphens for underscores.
pub open spec fn spec_flag(ident: Seq<char>, long_name: Seq<char>) -> Seq<char> {
    "--"@ + (if long_name.len() == 0 {
        replaced(ident, '_', '-')
    } else {
        long_name
    })
}

/// The CLI flag string, e.g. `"--chips"`.
pub fn flag(ident: &str, arg: &ArgInfo) -> (flag: String)
    ensures
        flag@ == spec_flag(ident@, arg@.long_name),
{
    // Derive the CLI flag name.
    let flag_name = if arg.long_name.as_str().unicode_len() == 0 {
        replace_char(ident, '_', '-')
    } else {
        arg.long_name.clone()
    };
    String::from_str("--").concat(flag_name.as_str())
}

/// What a field of the argument struct is described by.
#[derive(Debug, Clone, PartialEq, Eq)]
pub struct FieldDesc {
    /// Rust identifier of the field.
    pub ident: String,
    /// Doc comment string (may be empty).
    pub doc: String,
    /// The CLI flag string, e.g. `"--chips"`.
    pub flag: String,
    /// How to emit CLI args for this field.
    pub cli_kind: CliKind,
}

/// Describes the field `ident` with the items of its `arg` attributes, its
/// doc comment and the shape of its type.
pub fn build_field_desc(ident: &str, items: &Vec<ArgItem>, doc: String, ty: &TypeShape) -> (desc:
    FieldDesc)
    ensures
        ({
            let arg = ArgInfoView::empty().with_items(items@.map_values(|i: ArgItem| i@));
            let tc = ty.class();
            &&& desc.ident@ == ident@
            &&& desc.doc@ == doc@
            &&& desc.flag@ == spec_flag(ident@, arg.long_name)
            &&& desc.cli_kind == spec_cli_kind(tc, arg.has_long, arg.value_delimiter)
        }),
{
    let arg = parse_arg_attrs(items);
    let tc = classify_type(ty);

    let flag = flag(ident, &arg);
    let cli_kind = cli_kind(tc, &arg);

    FieldDesc { ident: String::from_str(ident), doc, flag, cli_kind }
}

/// What is wrong with the attributes of a tool.
#[derive(Debug, Clone, Copy, PartialEq, Eq, Structural)]
pub enum McpToolError {
    /// `description = "..."` is missing.
    MissingDescription,
    /// `command = "..."` is missing.
    MissingCommand,
}

/// The attributes of a tool.
#[derive(Debug, Clone, PartialEq, Eq)]
pub struct McpToolAttrs {
    /// What the tool does, for the tool listing.
    pub description: String,
    /// The subcommand that the tool runs.
    pub command: String,
}

/// The attributes of a tool from the two values that must be given; the
/// description is asked for first.
pub fn parse_mcp_tool_attrs(description: Option<String>, command: Option<String>) -> (attrs:
    Result<McpToolAttrs, McpToolError>)
    ensures
        description is Some && command is Some <==> attrs is Ok,
        attrs matches Ok(a) ==> Some(a.description) == description && Some(a.command) == command,
        attrs matches Err(e) ==> e == (if description is None {
            McpToolError::MissingDescription
        } else {
            McpToolError::MissingCommand
        }),
{
    let description = match description {
        Some(d) => d,
        None => {
            return Err(McpToolError::MissingDescription);
        },
    };
    let command = match command {
        Some(c) => c,
        None => {
            return Err(McpToolError::MissingCommand);
        },
    };

    Ok(McpToolAttrs { description, command })
}

/// The character of the decimal digit `d`.
pub open spec fn digit_char(d: nat) -> char {
    if d == 0 {
        '0'
    } else if d == 1 {
        '1'
    } else if d == 2 {
        '2'
    } else if d == 3 {
        '3'
    } else if d == 4 {
        '4'
    } else if d == 5 {
        '5'
    } else if d == 6 {
        '6'
    } else if d == 7 {
        '7'
    } else if d == 8 {
        '8'
    } else {
        '9'
    }
}

/// `n` in decimal digits, without leading zeros.
pub open spec fn digits(n: nat) -> Seq<char>
    decreases n,
{
    if n < 10 {
        seq![digit_char(n)]
    } else {
        digits(n / 10).push(digit_char(n % 10))
    }
}

/// Appends `n` in decimal digits to `out`.
pub fn push_decimal(out: &mut String, n: u64)
    ensures
        final(out)@ == old(out)@ + digits(n as nat),
    decreases n,
{
    if n >= 10 {
        push_decimal(out, n / 10);
    }
    let c = match n % 10 {
        0 => '0',
        1 => '1',
        2 => '2',
        3 => '3',
        4 => '4',
        5 => '5',
        6 => '6',
        7 => '7',
        8 => '8',
        _ => '9',
    };
    push_char(out, c);
    assert(final(out)@ =~= old(out)@ + digits(n as nat));
}

/// The strings of `parts` in a row, with `delimiter` between them.
pub open spec fn joined(parts: Seq<Seq<char>>, delimiter: char) -> Seq<char>
    decreases parts.len(),
{
    if parts.len() == 0 {
        Seq::empty()
    } else if parts.len() == 1 {
        parts[0]
    } else {
        joined(parts.drop_last(), delimiter).push(delimiter) + parts.last()
    }
}

/// The strings that `list` holds.
pub open spec fn strings(list: Seq<String>) -> Seq<Seq<char>> {
    list.map_values(|s: String| s@)
}

/// The strings of a list that got one more are those of the list and that
/// of the one.
pub proof fn lemma_strings_push(list: Seq<String>, s: String)
    ensures
        strings(list.push(s)) == strings(list).push(s@),
{
    assert(strings(list.push(s)) =~= strings(list).push(s@));
}

/// Joins the strings of `parts` with `delimiter` between them.
pub fn join(parts: &Vec<String>, delimiter: char) -> (out: String)
    ensures
        out@ == joined(strings(parts@), delimiter),
{
    let mut out = String::new();
    let ghost all = strings(parts@);
    let mut i: usize = 0;
    while i < parts.len()
        invariant
            i <= parts@.len(),
            all == strings(parts@),
            out@ == joined(all.subrange(0, i as int), delimiter),
        decreases parts@.len() - i,
    {
        proof {
            let next = all.subrange(0, i + 1);
            assert(next.drop_last() =~= all.subrange(0, i as int));
            assert(next.last() == parts@[i as int]@);
            if i == 0 {
                assert(next[0] == parts@[0]@);
            }
        }
        if i > 0 {
            push_char(&mut out, delimiter);
        }
        out.append(parts[i].as_str());
        assert(out@ =~= joined(all.subrange(0, i + 1), delimiter));
        i += 1;
    }
    assert(all.subrange(0, parts@.len() as int) == all);
    out
}

/// The value that a field of the tool input holds.
#[derive(Debug, Clone, PartialEq, Eq)]
pub enum CliValue {
    /// The value of a flag.
    Flag(Option<bool>),
    /// An optional string.
    Text(Option<String>),
    /// An optional list of strings.
    List(Option<Vec<String>>),
    /// An optional number.
    Number(Option<u64>),
    /// A string that must be given.
    Required(String),
}

impl CliValue {
    /// Whether a field whose args are emitted as `kind` says holds a value
    /// of this form.
    pub open spec fn fits(self, kind: CliKind) -> bool {
        match kind {
            CliKind::BoolFlag => self is Flag,
            CliKind::NamedOpt => self is Text,
            CliKind::PositionalOpt => self is Text,
            CliKind::VecDelimited { .. } => self is List,
            CliKind::VecPositional => self is List,
            CliKind::VecNamedMulti => self is List,
            CliKind::NamedInt => self is Number,
            CliKind::RequiredPositional => self is Required,
        }
    }

    /// Whether a field whose args are emitted as `kind` says holds a value
    /// of this form.
    pub fn check_fits(&self, kind: CliKind) -> (fits: bool)
        ensures
            fits == self.fits(kind),
    {
        match kind {
            CliKind::BoolFlag => matches!(self, CliValue::Flag(_)),
            CliKind::NamedOpt => matches!(self, CliValue::Text(_)),
            CliKind::PositionalOpt => matches!(self, CliValue::Text(_)),
            CliKind::VecDelimited { .. } => matches!(self, CliValue::List(_)),
            CliKind::VecPositional => matches!(self, CliValue::List(_)),
            CliKind::VecNamedMulti => matches!(self, CliValue::List(_)),
            CliKind::NamedInt => matches!(self, CliValue::Number(_)),
            CliKind::RequiredPositional => matches!(self, CliValue::Required(_)),
        }
    }
}

/// `values`, each with `flag` before it.
pub open spec fn flagged(flag: Seq<char>, values: Seq<Seq<char>>) -> Seq<Seq<char>>
    decreases values.len(),
{
    if values.len() == 0 {
        Seq::empty()
    } else {
        flagged(flag, values.drop_last()).push(flag).push(values.last())
    }
}

/// The CLI args that a field emits: nothing for a value that is not given,
/// a flag alone if it is set, a named value with its flag before it, a
/// positional value alone, a delimited list as one arg after the flag and
/// nothing if it is empty, a positional list value by value, a named list
/// with the flag before each value, a number in decimal digits.
pub open spec fn cli_args(kind: CliKind, flag: Seq<char>, value: CliValue) -> Seq<Seq<char>> {
    match (kind, value) {
        (CliKind::BoolFlag, CliValue::Flag(Some(true))) => seq![flag],
        (CliKind::NamedOpt, CliValue::Text(Some(v))) => seq![flag, v@],
        (CliKind::PositionalOpt, CliValue::Text(Some(v))) => seq![v@],
        (CliKind::VecDelimited { delimiter }, CliValue::List(Some(vals))) => if vals@.len() > 0 {
            seq![flag, joined(strings(vals@), delimiter)]
        } else {
            seq![]
        },
        (CliKind::VecPositional, CliValue::List(Some(vals))) => strings(vals@),
        (CliKind::VecNamedMulti, CliValue::List(Some(vals))) => flagged(flag, strings(vals@)),
        (CliKind::NamedInt, CliValue::Number(Some(n))) => seq![flag, digits(n as nat)],
        (CliKind::RequiredPositional, CliValue::Required(v)) => seq![v@],
        _ => seq![],
    }
}

/// Appends the CLI args of a field, whose args are emitted as `kind` says
/// and whose flag is `flag`, to `args`.
pub fn push_cli_args(args: &mut Vec<String>, kind: CliKind, flag: &str, value: &CliValue)
    ensures
        strings(final(args)@) == strings(old(args)@) + cli_args(kind, flag@, *value),
{
    let ghost before = strings(args@);
    match (kind, value) {
        (CliKind::BoolFlag, CliValue::Flag(Some(true))) => {
            args.push(String::from_str(flag));
        },
        (CliKind::NamedOpt, CliValue::Text(Some(v))) => {
            args.push(String::from_str(flag));
            args.push(v.clone());
        },
        (CliKind::PositionalOpt, CliValue::Text(Some(v))) => {
            args.push(v.clone());
        },
        (CliKind::VecDelimited { delimiter }, CliValue::List(Some(vals))) => {
            if vals.len() > 0 {
                args.push(String::from_str(flag));
                args.push(join(vals, delimiter));
            }
        },
        (CliKind::VecPositional, CliValue::List(Some(vals))) => {
            let mut i: usize = 0;
            while i < vals.len()
                invariant
                    i <= vals@.len(),
                    strings(args@) == before + strings(vals@).subrange(0, i as int),
                decreases vals@.len() - i,
            {
                let ghost so_far = args@;
                let v = vals[i].clone();
                args.push(v);
                proof {
                    lemma_strings_push(so_far, v);
                    assert(strings(vals@).subrange(0, i + 1) =~= strings(vals@).subrange(
                        0,
                        i as int,
                    ).push(vals@[i as int]@));
                    assert(strings(args@) =~= before + strings(vals@).subrange(0, i + 1));
                }
                i += 1;
            }
            assert(strings(vals@).subrange(0, vals@.len() as int) == strings(vals@));
        },
        (CliKind::VecNamedMulti, CliValue::List(Some(vals))) => {
            let mut i: usize = 0;
            while i < vals.len()
                invariant
                    i <= vals@.len(),
                    strings(args@) == before + flagged(
                        flag@,
                        strings(vals@).subrange(0, i as int),
                    ),
                decreases vals@.len() - i,
            {
                proof {
                    let next = strings(vals@).subrange(0, i + 1);
                    assert(next.drop_last() =~= strings(vals@).subrange(0, i as int));
                    assert(next.last() == vals@[i as int]@);
                }
                let ghost so_far = args@;
                let f = String::from_str(flag);
                let v = vals[i].clone();
                args.push(f);
                args.push(v);
                proof {
                    lemma_strings_push(so_far, f);
                    lemma_strings_push(so_far.push(f), v);
                    assert(strings(args@) =~= before + flagged(
                        flag@,
                        strings(vals@).subrange(0, i + 1),
                    ));
                }
                i += 1;
            }
            assert(strings(vals@).subrange(0, vals@.len() as int) == strings(vals@));
        },
        (CliKind::NamedInt, CliValue::Number(Some(n))) => {
            args.push(String::from_str(flag));
            let mut number = String::new();
            push_decimal(&mut number, *n);
            args.push(number);
        },
        (CliKind::RequiredPositional, CliValue::Required(v)) => {
            args.push(v.clone());
        },
        _ => {},
    }
    assert(strings(args@) =~= before + cli_args(kind, flag@, *value));
}

/// `s` without the white space at its start.
pub open spec fn trimmed_start(s: Seq<char>) -> Seq<char>
    decreases s.len(),
{
    if s.len() > 0 && char_is_whitespace(s[0]) {
        trimmed_start(s.drop_first())
    } else {
        s
    }
}

/// `s` without the white space at its end.
pub open spec fn trimmed_end(s: Seq<char>) -> Seq<char>
    decreases s.len(),
{
    if s.len() > 0 && char_is_whitespace(s.last()) {
        trimmed_end(s.drop_last())
    } else {
        s
    }
}

/// `s` without the white space at its start and at its end.
pub open spec fn trimmed(s: Seq<char>) -> Seq<char> {
    trimmed_end(trimmed_start(s))
}

/// What of `s` is left after the white space at its start and at its end
/// was taken off, given for each character by `space` whether it is white
/// space: the characters from `start` to `end`.
pub fn trim_bounds(space: &Vec<bool>) -> (bounds: (usize, usize))
    ensures
        bounds.0 <= bounds.1 <= space@.len(),
        forall|i: int| 0 <= i < bounds.0 ==> space@[i],
        forall|i: int| bounds.1 <= i < space@.len() ==> space@[i],
        bounds.0 < space@.len() ==> !space@[bounds.0 as int],
        bounds.0 < bounds.1 ==> !space@[bounds.1 - 1],
{
    let len = space.len();
    let mut start: usize = 0;
    while start < len && space[start]
        invariant
            start <= len,
            len == space@.len(),
            forall|i: int| 0 <= i < start ==> space@[i],
        decreases len - start,
    {
        start += 1;
    }
    let mut end: usize = len;
    while end > start && space[end - 1]
        invariant
            start <= end <= len,
            len == space@.len(),
            forall|i: int| end <= i < len ==> space@[i],
        decreases end,
    {
        end -= 1;
    }
    (start, end)
}

/// Taking white space off the start of a string that starts with
/// `start` characters of white space and then has none, or ends.
proof fn lemma_trimmed_start(s: Seq<char>, start: int)
    requires
        0 <= start <= s.len(),
        forall|i: int| 0 <= i < start ==> char_is_whitespace(s[i]),
        start < s.len() ==> !char_is_whitespace(s[start]),
    ensures
        trimmed_start(s) == s.subrange(start, s.len() as int),
    decreases start,
{
    if start == 0 {
        assert(s.subrange(0, s.len() as int) == s);
    } else {
        let rest = s.drop_first();
        assert forall|i: int| 0 <= i < start - 1 implies char_is_whitespace(rest[i]) by {
            assert(rest[i] == s[i + 1]);
        }
        lemma_trimmed_start(rest, start - 1);
        assert(rest.subrange(start - 1, rest.len() as int) =~= s.subrange(start, s.len() as int));
    }
}

/// Taking white space off the end of a string that ends with white space
/// from `end` on and has none before it, or is empty.
proof fn lemma_trimmed_end(s: Seq<char>, end: int)
    requires
        0 <= end <= s.len(),
        forall|i: int| end <= i < s.len() ==> char_is_whitespace(s[i]),
        0 < end ==> !char_is_whitespace(s[end - 1]),
    ensures
        trimmed_end(s) == s.subrange(0, end),
    decreases s.len() - end,
{
    if end == s.len() {
        assert(s.subrange(0, s.len() as int) == s);
    } else {
        let rest = s.drop_last();
        lemma_trimmed_end(rest, end);
        assert(rest.subrange(0, end) =~= s.subrange(0, end));
    }
}

/// `s` without the white space at its start and at its end.
pub fn trim(s: &str) -> (out: String)
    ensures
        out@ == trimmed(s@),
{
    let len = s.unicode_len();
    let mut space: Vec<bool> = Vec::new();
    let mut i: usize = 0;
    while i < len
        invariant
            i <= len,
            len == s@.len(),
            space@.len() == i,
            forall|k: int| 0 <= k < i ==> space@[k] == char_is_whitespace(s@[k]),
        decreases len - i,
    {
        space.push(is_whitespace(s.get_char(i)));
        i += 1;
    }
    let (start, end) = trim_bounds(&space);
    proof {
        assert forall|k: int| 0 <= k < start implies char_is_whitespace(s@[k]) by {
            assert(space@[k]);
        }
        if start < len {
            assert(!space@[start as int]);
        }
        lemma_trimmed_start(s@, start as int);
        let tail = s@.subrange(start as int, len as int);
        assert forall|k: int| end - start <= k < tail.len() implies char_is_whitespace(
            tail[k],
        ) by {
            assert(space@[k + start]);
            assert(tail[k] == s@[k + start]);
        }
        if end > start {
            assert(!space@[end - 1]);
            assert(tail[end - start - 1] == s@[end - 1]);
        }
        lemma_trimmed_end(tail, end - start);
        assert(tail.subrange(0, end - start) =~= s@.subrange(start as int, end as int));
    }
    String::from_str(s.substring_char(start, end))
}

/// The doc lines that count: each trimmed, and those left out of which
/// nothing is left.
pub open spec fn doc_lines(docs: Seq<Seq<char>>) -> Seq<Seq<char>>
    decreases docs.len(),
{
    if docs.len() == 0 {
        Seq::empty()
    } else if trimmed(docs.last()).len() == 0 {
        doc_lines(docs.drop_last())
    } else {
        doc_lines(docs.drop_last()).push(trimmed(docs.last()))
    }
}

/// Extract and concatenate doc-comment strings: each is trimmed, the empty
/// ones are left out, and the others are joined by single spaces.
pub fn extract_doc(docs: &Vec<String>) -> (doc: String)
    ensures
        doc@ == joined(doc_lines(strings(docs@)), ' '),
{
    let mut lines: Vec<String> = Vec::new();
    let ghost all = strings(docs@);
    let mut i: usize = 0;
    while i < docs.len()
        invariant
            i <= docs@.len(),
            all == strings(docs@),
            strings(lines@) == doc_lines(all.subrange(0, i as int)),
        decreases docs@.len() - i,
    {
        proof {
            let next = all.subrange(0, i + 1);
            assert(next.drop_last() =~= all.subrange(0, i as int));
            assert(next.last() == docs@[i as int]@);
        }
        let line = trim(docs[i].as_str());
        if line.as_str().unicode_len() != 0 {
            let ghost so_far = lines@;
            lines.push(line);
            proof {
                lemma_strings_push(so_far, line);
            }
        }
        i += 1;
    }
    assert(all.subrange(0, docs@.len() as int) == all);
    join(&lines, ' ')
}

} // verus!
