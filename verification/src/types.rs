//! Classification of the engine's textual type names.
//!
//! The engine's type vocabulary is open-ended: fixed keywords, parameterized
//! names such as `varchar(n)` or `decimal(p,s)`, and composite names such as
//! `array(...)`. [`classify`] maps every name to exactly one
//! [`TypeDescriptor`]; names it does not know become
//! [`TypeDescriptor::Unknown`] and are later treated as plain strings.

use vstd::prelude::*;
use vstd::string::*;
use crate::text::{all_digits, first_position, has_char, is_digits, to_chars, window_is};

verus! {

/// Width of an integer column.
#[derive(Clone, Copy, Debug, PartialEq, Eq, Structural)]
pub enum IntWidth {
    W8,
    W16,
    W32,
    W64,
}

impl IntWidth {
    /// The width in bits.
    pub open spec fn bits_spec(self) -> nat {
        match self {
            IntWidth::W8 => 8,
            IntWidth::W16 => 16,
            IntWidth::W32 => 32,
            IntWidth::W64 => 64,
        }
    }

    /// The width in bits.
    pub fn bits(self) -> (b: u8)
        ensures
            b == self.bits_spec(),
    {
        match self {
            IntWidth::W8 => 8,
            IntWidth::W16 => 16,
            IntWidth::W32 => 32,
            IntWidth::W64 => 64,
        }
    }
}

/// Width of a floating-point column.
#[derive(Clone, Copy, Debug, PartialEq, Eq, Structural)]
pub enum FloatWidth {
    W32,
    W64,
}

impl FloatWidth {
    /// The width in bits.
    pub open spec fn bits_spec(self) -> nat {
        match self {
            FloatWidth::W32 => 32,
            FloatWidth::W64 => 64,
        }
    }

    /// The width in bits.
    pub fn bits(self) -> (b: u8)
        ensures
            b == self.bits_spec(),
    {
        match self {
            FloatWidth::W32 => 32,
            FloatWidth::W64 => 64,
        }
    }
}

/// The mathematical model of a [`TypeDescriptor`].
pub enum SqlType {
    Integer(IntWidth),
    Float(FloatWidth),
    Decimal,
    Varchar,
    Boolean,
    Date,
    Time,
    Timestamp,
    TimestampWithTimeZone,
    Binary,
    Json,
    Uuid,
    Array(Box<SqlType>),
    Mapping,
    Unknown(Seq<char>),
}

/// The canonical, closed representation of a column type.
///
/// Length, precision and scale parameters gate recognition only; they are not
/// kept. The key and value types of a map are not kept either.
#[derive(Debug, PartialEq, Eq)]
pub enum TypeDescriptor {
    Integer(IntWidth),
    Float(FloatWidth),
    Decimal,
    Varchar,
    Boolean,
    Date,
    Time,
    Timestamp,
    TimestampWithTimeZone,
    Binary,
    Json,
    Uuid,
    /// An array, with the descriptor of its elements.
    Array(Box<TypeDescriptor>),
    Mapping,
    /// A name outside the known vocabulary, kept as it was given.
    Unknown(String),
}

impl TypeDescriptor {
    /// The model of a descriptor: the same shape, with the kept name as a
    /// sequence of characters.
    pub open spec fn model(self) -> SqlType
        decreases self,
    {
        match self {
            TypeDescriptor::Integer(w) => SqlType::Integer(w),
            TypeDescriptor::Float(w) => SqlType::Float(w),
            TypeDescriptor::Decimal => SqlType::Decimal,
            TypeDescriptor::Varchar => SqlType::Varchar,
            TypeDescriptor::Boolean => SqlType::Boolean,
            TypeDescriptor::Date => SqlType::Date,
            TypeDescriptor::Time => SqlType::Time,
            TypeDescriptor::Timestamp => SqlType::Timestamp,
            TypeDescriptor::TimestampWithTimeZone => SqlType::TimestampWithTimeZone,
            TypeDescriptor::Binary => SqlType::Binary,
            TypeDescriptor::Json => SqlType::Json,
            TypeDescriptor::Uuid => SqlType::Uuid,
            TypeDescriptor::Array(element) => SqlType::Array(Box::new((*element).model())),
            TypeDescriptor::Mapping => SqlType::Mapping,
            TypeDescriptor::Unknown(name) => SqlType::Unknown(name@),
        }
    }
}

impl View for TypeDescriptor {
    type V = SqlType;

    open spec fn view(&self) -> SqlType {
        self.model()
    }
}

/// `s` opens with `head`, closes with `)` and holds at least one character
/// besides the head.
pub open spec fn framed(s: Seq<char>, head: Seq<char>) -> bool {
    &&& s.len() > head.len()
    &&& s.subrange(0, head.len() as int) == head
    &&& s.last() == ')'
}

/// What stands between the head and the closing parenthesis of a framed name.
pub open spec fn payload(s: Seq<char>, head: Seq<char>) -> Seq<char> {
    s.subrange(head.len() as int, s.len() - 1)
}

/// One or more characters, none of them a line feed.
pub open spec fn is_plain(s: Seq<char>) -> bool {
    s.len() > 0 && !has_char(s, '\n')
}

/// Two digit runs with a single comma between them.
pub open spec fn is_digit_pair(s: Seq<char>) -> bool {
    exists|p: int|
        0 <= p < s.len() && s[p] == ',' && is_digits(#[trigger] s.take(p)) && is_digits(
            s.skip(p + 1),
        )
}

/// Two non-empty parts with a comma between them, none holding a line feed.
pub open spec fn is_part_pair(s: Seq<char>) -> bool {
    &&& !has_char(s, '\n')
    &&& exists|p: int| 0 < p < s.len() - 1 && #[trigger] s[p] == ','
}

/// `varchar(<digits>)`
pub open spec fn is_varchar(s: Seq<char>) -> bool {
    framed(s, "varchar("@) && is_digits(payload(s, "varchar("@))
}

/// `decimal(<digits>,<digits>)`
pub open spec fn is_decimal(s: Seq<char>) -> bool {
    framed(s, "decimal("@) && is_digit_pair(payload(s, "decimal("@))
}

/// `timestamp(<digits>)`
pub open spec fn is_timestamp(s: Seq<char>) -> bool {
    framed(s, "timestamp("@) && is_digits(payload(s, "timestamp("@))
}

/// `time(<digits>)`
pub open spec fn is_time(s: Seq<char>) -> bool {
    framed(s, "time("@) && is_digits(payload(s, "time("@))
}

/// `array(<inner>)`
pub open spec fn is_array(s: Seq<char>) -> bool {
    framed(s, "array("@) && is_plain(payload(s, "array("@))
}

/// `map(<key>,<value>)`
pub open spec fn is_map(s: Seq<char>) -> bool {
    framed(s, "map("@) && is_part_pair(payload(s, "map("@))
}

/// The descriptor of a name that matches no parameterized pattern: the fixed
/// keyword table, and `Unknown` for everything else.
pub open spec fn keyword_type(s: Seq<char>) -> SqlType {
    if s == "integer"@ || s == "int"@ {
        SqlType::Integer(IntWidth::W32)
    } else if s == "smallint"@ {
        SqlType::Integer(IntWidth::W16)
    } else if s == "tinyint"@ {
        SqlType::Integer(IntWidth::W8)
    } else if s == "bigint"@ {
        SqlType::Integer(IntWidth::W64)
    } else if s == "float"@ || s == "real"@ {
        SqlType::Float(FloatWidth::W32)
    } else if s == "double"@ {
        SqlType::Float(FloatWidth::W64)
    } else if s == "boolean"@ || s == "bool"@ {
        SqlType::Boolean
    } else if s == "date"@ {
        SqlType::Date
    } else if s == "timestamp with time zone"@ {
        SqlType::TimestampWithTimeZone
    } else if s == "binary"@ || s == "varbinary"@ {
        SqlType::Binary
    } else if s == "json"@ {
        SqlType::Json
    } else if s == "uuid"@ {
        SqlType::Uuid
    } else {
        SqlType::Unknown(s)
    }
}

/// The descriptor of a type name.
///
/// Parameterized patterns are tried first, in a fixed order, then the keyword
/// table; whatever is left is `Unknown` and keeps the name.
pub open spec fn classify_spec(s: Seq<char>) -> SqlType
    decreases s.len(),
{
    if is_varchar(s) {
        SqlType::Varchar
    } else if is_decimal(s) {
        SqlType::Decimal
    } else if is_timestamp(s) {
        SqlType::Timestamp
    } else if is_time(s) {
        SqlType::Time
    } else if is_array(s) {
        SqlType::Array(Box::new(classify_spec(payload(s, "array("@))))
    } else if is_map(s) {
        SqlType::Mapping
    } else {
        keyword_type(s)
    }
}

/// `t` wrapped in `n` array layers.
pub open spec fn nest(n: nat, t: SqlType) -> SqlType
    decreases n,
{
    if n == 0 {
        t
    } else {
        SqlType::Array(Box::new(nest((n - 1) as nat, t)))
    }
}

proof fn lemma_nest_inside(n: nat, t: SqlType)
    ensures
        nest(n, SqlType::Array(Box::new(t))) == nest(n + 1, t),
    decreases n,
{
    if n > 0 {
        lemma_nest_inside((n - 1) as nat, t);
    }
    assert(nest(0, t) == t);
}

/// The heads of the parameterized patterns, spelled out.
proof fn lemma_heads()
    ensures
        "varchar("@ == seq!['v', 'a', 'r', 'c', 'h', 'a', 'r', '('],
        "decimal("@ == seq!['d', 'e', 'c', 'i', 'm', 'a', 'l', '('],
        "timestamp("@ == seq!['t', 'i', 'm', 'e', 's', 't', 'a', 'm', 'p', '('],
        "time("@ == seq!['t', 'i', 'm', 'e', '('],
        "array("@ == seq!['a', 'r', 'r', 'a', 'y', '('],
        "map("@ == seq!['m', 'a', 'p', '('],
{
    reveal_strlit("varchar(");
    reveal_strlit("decimal(");
    reveal_strlit("timestamp(");
    reveal_strlit("time(");
    reveal_strlit("array(");
    reveal_strlit("map(");
}

/// A name framed by one head is framed by no other.
proof fn lemma_one_frame(s: Seq<char>)
    ensures
        framed(s, "varchar("@) ==> !framed(s, "decimal("@) && !framed(s, "timestamp("@) && !framed(
            s,
            "time("@,
        ) && !framed(s, "array("@) && !framed(s, "map("@),
        framed(s, "decimal("@) ==> !framed(s, "timestamp("@) && !framed(s, "time("@) && !framed(
            s,
            "array("@,
        ) && !framed(s, "map("@),
        framed(s, "timestamp("@) ==> !framed(s, "array("@) && !framed(s, "map("@),
        framed(s, "time("@) ==> !framed(s, "array("@) && !framed(s, "map("@),
        framed(s, "array("@) ==> !framed(s, "map("@),
        framed(s, "timestamp("@) ==> !framed(s, "time("@),
{
    lemma_heads();
}

/// Whether the window `[from, to)` of `chars` is framed by `head`.
fn has_frame(chars: &Vec<char>, from: usize, to: usize, head: &str) -> (r: Option<usize>)
    requires
        from <= to <= chars.len(),
    ensures
        r is Some == framed(chars@.subrange(from as int, to as int), head@),
        r matches Some(start) ==> {
            &&& start == from + head@.len()
            &&& start < to
            &&& chars@.subrange(start as int, to - 1) == payload(
                chars@.subrange(from as int, to as int),
                head@,
            )
        },
{
    let n = head.unicode_len();
    let ghost window = chars@.subrange(from as int, to as int);
    if to - from <= n {
        return None;
    }
    assert(window.subrange(0, n as int) =~= chars@.subrange(from as int, from + n));
    if !window_is(chars, from, from + n, head) {
        return None;
    }
    if chars[to - 1] != ')' {
        return None;
    }
    Some(from + n)
}

/// Whether the window `[from, to)` of `chars` is two digit runs around a comma.
fn digit_pair(chars: &Vec<char>, from: usize, to: usize) -> (r: bool)
    requires
        from <= to <= chars.len(),
    ensures
        r == is_digit_pair(chars@.subrange(from as int, to as int)),
{
    let ghost window = chars@.subrange(from as int, to as int);
    match first_position(chars, from, to, ',') {
        None => false,
        Some(comma) => {
            let left = all_digits(chars, from, comma);
            let right = all_digits(chars, comma + 1, to);
            let ghost q = comma - from;
            assert(window.take(q) =~= chars@.subrange(from as int, comma as int));
            assert(window.skip(q + 1) =~= chars@.subrange(comma + 1, to as int));
            if left && right {
                true
            } else {
                assert(!is_digit_pair(window)) by {
                    if is_digit_pair(window) {
                        let p = choose|p: int|
                            0 <= p < window.len() && window[p] == ',' && is_digits(
                                #[trigger] window.take(p),
                            ) && is_digits(window.skip(p + 1));
                        if p > q {
                            assert(window.take(p)[q] == ',');
                        }
                    }
                }
                false
            }
        },
    }
}

/// Whether the window `[from, to)` of `chars` holds no line feed.
fn no_line_feed(chars: &Vec<char>, from: usize, to: usize) -> (r: bool)
    requires
        from <= to <= chars.len(),
    ensures
        r == !has_char(chars@.subrange(from as int, to as int), '\n'),
{
    let ghost window = chars@.subrange(from as int, to as int);
    match first_position(chars, from, to, '\n') {
        None => true,
        Some(p) => {
            assert(window[p - from] == '\n');
            false
        },
    }
}

/// Whether the window `[from, to)` of `chars` is two non-empty parts around a
/// comma, free of line feeds.
fn part_pair(chars: &Vec<char>, from: usize, to: usize) -> (r: bool)
    requires
        from <= to <= chars.len(),
    ensures
        r == is_part_pair(chars@.subrange(from as int, to as int)),
{
    let ghost window = chars@.subrange(from as int, to as int);
    if !no_line_feed(chars, from, to) {
        return false;
    }
    if to - from < 3 {
        return false;
    }
    match first_position(chars, from + 1, to - 1, ',') {
        None => false,
        Some(p) => {
            assert(window[p - from] == ',');
            true
        },
    }
}

/// Whether the window `[from, to)` of `chars` is an array name; if so, where
/// the element's name starts.
fn array_frame(chars: &Vec<char>, from: usize, to: usize) -> (r: Option<usize>)
    requires
        from <= to <= chars.len(),
    ensures
        r is Some == is_array(chars@.subrange(from as int, to as int)),
        r matches Some(start) ==> {
            &&& from < start < to
            &&& chars@.subrange(start as int, to - 1) == payload(
                chars@.subrange(from as int, to as int),
                "array("@,
            )
        },
{
    proof {
        lemma_heads();
    }
    match has_frame(chars, from, to, "array(") {
        None => None,
        Some(start) => {
            if start < to - 1 && no_line_feed(chars, start, to - 1) {
                Some(start)
            } else {
                None
            }
        },
    }
}

/// The descriptor of the window `[from, to)` of a name, when that window is
/// not an array name.
fn classify_flat(raw_type: &str, chars: &Vec<char>, from: usize, to: usize) -> (d: TypeDescriptor)
    requires
        chars@ == raw_type@,
        from <= to <= chars.len(),
        !is_array(chars@.subrange(from as int, to as int)),
    ensures
        d@ == classify_spec(chars@.subrange(from as int, to as int)),
{
    let ghost window = chars@.subrange(from as int, to as int);
    proof {
        lemma_one_frame(window);
    }
    if let Some(start) = has_frame(chars, from, to, "varchar(") {
        if all_digits(chars, start, to - 1) {
            return TypeDescriptor::Varchar;
        }
    }
    if let Some(start) = has_frame(chars, from, to, "decimal(") {
        if digit_pair(chars, start, to - 1) {
            return TypeDescriptor::Decimal;
        }
    }
    if let Some(start) = has_frame(chars, from, to, "timestamp(") {
        if all_digits(chars, start, to - 1) {
            return TypeDescriptor::Timestamp;
        }
    }
    if let Some(start) = has_frame(chars, from, to, "time(") {
        if all_digits(chars, start, to - 1) {
            return TypeDescriptor::Time;
        }
    }
    if let Some(start) = has_frame(chars, from, to, "map(") {
        if part_pair(chars, start, to - 1) {
            return TypeDescriptor::Mapping;
        }
    }
    if window_is(chars, from, to, "integer") || window_is(chars, from, to, "int") {
        TypeDescriptor::Integer(IntWidth::W32)
    } else if window_is(chars, from, to, "smallint") {
        TypeDescriptor::Integer(IntWidth::W16)
    } else if window_is(chars, from, to, "tinyint") {
        TypeDescriptor::Integer(IntWidth::W8)
    } else if window_is(chars, from, to, "bigint") {
        TypeDescriptor::Integer(IntWidth::W64)
    } else if window_is(chars, from, to, "float") || window_is(chars, from, to, "real") {
        TypeDescriptor::Float(FloatWidth::W32)
    } else if window_is(chars, from, to, "double") {
        TypeDescriptor::Float(FloatWidth::W64)
    } else if window_is(chars, from, to, "boolean") || window_is(chars, from, to, "bool") {
        TypeDescriptor::Boolean
    } else if window_is(chars, from, to, "date") {
        TypeDescriptor::Date
    } else if window_is(chars, from, to, "timestamp with time zone") {
        TypeDescriptor::TimestampWithTimeZone
    } else if window_is(chars, from, to, "binary") || window_is(chars, from, to, "varbinary") {
        TypeDescriptor::Binary
    } else if window_is(chars, from, to, "json") {
        TypeDescriptor::Json
    } else if window_is(chars, from, to, "uuid") {
        TypeDescriptor::Uuid
    } else {
        TypeDescriptor::Unknown(String::from_str(raw_type.substring_char(from, to)))
    }
}

/// Classifies a type name of the engine.
///
/// Total: every name has exactly one descriptor. Array names are classified
/// layer by layer, so that `array(array(bigint))` is an array of arrays of
/// 64-bit integers.
pub fn classify(raw_type: &str) -> (d: TypeDescriptor)
    ensures
        d@ == classify_spec(raw_type@),
{
    let chars = to_chars(raw_type);
    let mut from: usize = 0;
    let mut to: usize = chars.len();
    let mut depth: usize = 0;
    proof {
        assert(chars@.subrange(0, chars@.len() as int) =~= chars@);
    }
    loop
        invariant
            chars@ == raw_type@,
            from <= to <= chars.len(),
            depth <= from,
            classify_spec(raw_type@) == nest(
                depth as nat,
                classify_spec(chars@.subrange(from as int, to as int)),
            ),
        ensures
            !is_array(chars@.subrange(from as int, to as int)),
        decreases to - from,
    {
        let ghost window = chars@.subrange(from as int, to as int);
        match array_frame(&chars, from, to) {
            None => {
                break ;
            },
            Some(start) => {
                proof {
                    lemma_one_frame(window);
                    lemma_nest_inside(depth as nat, classify_spec(payload(window, "array("@)));
                }
                from = start;
                to = to - 1;
                depth = depth + 1;
            },
        }
    }
    let ghost base = classify_spec(chars@.subrange(from as int, to as int));
    let mut d = classify_flat(raw_type, &chars, from, to);
    let mut layers: usize = 0;
    while layers < depth
        invariant
            layers <= depth,
            d@ == nest(layers as nat, base),
        decreases depth - layers,
    {
        d = TypeDescriptor::Array(Box::new(d));
        layers = layers + 1;
    }
    d
}

/// The canonical name of a descriptor: a name of the engine's vocabulary that
/// the classifier maps back to the descriptor.
pub open spec fn canonical_name_spec(t: SqlType) -> Seq<char>
    decreases t,
{
    match t {
        SqlType::Integer(IntWidth::W8) => "tinyint"@,
        SqlType::Integer(IntWidth::W16) => "smallint"@,
        SqlType::Integer(IntWidth::W32) => "integer"@,
        SqlType::Integer(IntWidth::W64) => "bigint"@,
        SqlType::Float(FloatWidth::W32) => "real"@,
        SqlType::Float(FloatWidth::W64) => "double"@,
        SqlType::Decimal => "decimal(38,0)"@,
        SqlType::Varchar => "varchar(2147483646)"@,
        SqlType::Boolean => "boolean"@,
        SqlType::Date => "date"@,
        SqlType::Time => "time(3)"@,
        SqlType::Timestamp => "timestamp(3)"@,
        SqlType::TimestampWithTimeZone => "timestamp with time zone"@,
        SqlType::Binary => "varbinary"@,
        SqlType::Json => "json"@,
        SqlType::Uuid => "uuid"@,
        SqlType::Array(element) => "array("@ + canonical_name_spec(*element) + ")"@,
        SqlType::Mapping => "map(varchar,json)"@,
        SqlType::Unknown(name) => name,
    }
}

impl TypeDescriptor {
    /// The canonical name of this descriptor.
    pub fn canonical_name(&self) -> (name: String)
        ensures
            name@ == canonical_name_spec(self@),
        decreases self,
    {
        match self {
            TypeDescriptor::Integer(IntWidth::W8) => String::from_str("tinyint"),
            TypeDescriptor::Integer(IntWidth::W16) => String::from_str("smallint"),
            TypeDescriptor::Integer(IntWidth::W32) => String::from_str("integer"),
            TypeDescriptor::Integer(IntWidth::W64) => String::from_str("bigint"),
            TypeDescriptor::Float(FloatWidth::W32) => String::from_str("real"),
            TypeDescriptor::Float(FloatWidth::W64) => String::from_str("double"),
            TypeDescriptor::Decimal => String::from_str("decimal(38,0)"),
            TypeDescriptor::Varchar => String::from_str("varchar(2147483646)"),
            TypeDescriptor::Boolean => String::from_str("boolean"),
            TypeDescriptor::Date => String::from_str("date"),
            TypeDescriptor::Time => String::from_str("time(3)"),
            TypeDescriptor::Timestamp => String::from_str("timestamp(3)"),
            TypeDescriptor::TimestampWithTimeZone => String::from_str("timestamp with time zone"),
            TypeDescriptor::Binary => String::from_str("varbinary"),
            TypeDescriptor::Json => String::from_str("json"),
            TypeDescriptor::Uuid => String::from_str("uuid"),
            TypeDescriptor::Array(element) => {
                let inner = element.canonical_name();
                let mut name = String::from_str("array(");
                name.append(inner.as_str());
                name.append(")");
                name
            },
            TypeDescriptor::Mapping => String::from_str("map(varchar,json)"),
            TypeDescriptor::Unknown(name) => name.clone(),
        }
    }
}

/// The keywords of the fixed table, spelled out.
proof fn lemma_keywords()
    ensures
        "integer"@ == seq!['i', 'n', 't', 'e', 'g', 'e', 'r'],
        "int"@ == seq!['i', 'n', 't'],
        "smallint"@ == seq!['s', 'm', 'a', 'l', 'l', 'i', 'n', 't'],
        "tinyint"@ == seq!['t', 'i', 'n', 'y', 'i', 'n', 't'],
        "bigint"@ == seq!['b', 'i', 'g', 'i', 'n', 't'],
        "float"@ == seq!['f', 'l', 'o', 'a', 't'],
        "real"@ == seq!['r', 'e', 'a', 'l'],
        "double"@ == seq!['d', 'o', 'u', 'b', 'l', 'e'],
        "boolean"@ == seq!['b', 'o', 'o', 'l', 'e', 'a', 'n'],
        "bool"@ == seq!['b', 'o', 'o', 'l'],
        "date"@ == seq!['d', 'a', 't', 'e'],
        "timestamp with time zone"@ == seq![
            't', 'i', 'm', 'e', 's', 't', 'a', 'm', 'p', ' ', 'w', 'i', 't', 'h', ' ', 't',
            'i', 'm', 'e', ' ', 'z', 'o', 'n', 'e',
        ],
        "binary"@ == seq!['b', 'i', 'n', 'a', 'r', 'y'],
        "varbinary"@ == seq!['v', 'a', 'r', 'b', 'i', 'n', 'a', 'r', 'y'],
        "json"@ == seq!['j', 's', 'o', 'n'],
        "uuid"@ == seq!['u', 'u', 'i', 'd'],
{
    reveal_strlit("integer");
    reveal_strlit("int");
    reveal_strlit("smallint");
    reveal_strlit("tinyint");
    reveal_strlit("bigint");
    reveal_strlit("float");
    reveal_strlit("real");
    reveal_strlit("double");
    reveal_strlit("boolean");
    reveal_strlit("bool");
    reveal_strlit("date");
    reveal_strlit("timestamp with time zone");
    reveal_strlit("binary");
    reveal_strlit("varbinary");
    reveal_strlit("json");
    reveal_strlit("uuid");
}

/// A name that does not close with a parenthesis matches no pattern, so the
/// keyword table decides.
proof fn lemma_unframed(s: Seq<char>)
    requires
        s.len() == 0 || s.last() != ')',
    ensures
        classify_spec(s) == keyword_type(s),
{
}

/// The keyword table: each keyword has the descriptor listed for it.
pub proof fn lemma_keyword_table()
    ensures
        classify_spec("integer"@) == SqlType::Integer(IntWidth::W32),
        classify_spec("int"@) == SqlType::Integer(IntWidth::W32),
        classify_spec("smallint"@) == SqlType::Integer(IntWidth::W16),
        classify_spec("tinyint"@) == SqlType::Integer(IntWidth::W8),
        classify_spec("bigint"@) == SqlType::Integer(IntWidth::W64),
        classify_spec("float"@) == SqlType::Float(FloatWidth::W32),
        classify_spec("real"@) == SqlType::Float(FloatWidth::W32),
        classify_spec("double"@) == SqlType::Float(FloatWidth::W64),
        classify_spec("boolean"@) == SqlType::Boolean,
        classify_spec("bool"@) == SqlType::Boolean,
        classify_spec("date"@) == SqlType::Date,
        classify_spec("timestamp with time zone"@) == SqlType::TimestampWithTimeZone,
        classify_spec("binary"@) == SqlType::Binary,
        classify_spec("varbinary"@) == SqlType::Binary,
        classify_spec("json"@) == SqlType::Json,
        classify_spec("uuid"@) == SqlType::Uuid,
{
    lemma_keywords();
    lemma_unframed("integer"@);
    lemma_unframed("int"@);
    lemma_unframed("smallint"@);
    lemma_unframed("tinyint"@);
    lemma_unframed("bigint"@);
    lemma_unframed("float"@);
    lemma_unframed("real"@);
    lemma_unframed("double"@);
    lemma_unframed("boolean"@);
    lemma_unframed("bool"@);
    lemma_unframed("date"@);
    lemma_unframed("timestamp with time zone"@);
    lemma_unframed("binary"@);
    lemma_unframed("varbinary"@);
    lemma_unframed("json"@);
    lemma_unframed("uuid"@);
}

/// The parameterized patterns: a name of one of the six shapes has the
/// descriptor of that shape, whatever its parameters; an array name has the
/// descriptor of its element inside.
pub proof fn lemma_pattern_table(s: Seq<char>)
    ensures
        is_varchar(s) ==> classify_spec(s) == SqlType::Varchar,
        is_decimal(s) ==> classify_spec(s) == SqlType::Decimal,
        is_timestamp(s) ==> classify_spec(s) == SqlType::Timestamp,
        is_time(s) ==> classify_spec(s) == SqlType::Time,
        is_array(s) ==> classify_spec(s) == SqlType::Array(
            Box::new(classify_spec(payload(s, "array("@))),
        ),
        is_map(s) ==> classify_spec(s) == SqlType::Mapping,
{
    lemma_one_frame(s);
}

/// A name outside the vocabulary is kept as it was given.
pub proof fn lemma_unknown_keeps_name(s: Seq<char>)
    ensures
        classify_spec(s) is Unknown ==> classify_spec(s) == SqlType::Unknown(s),
{
}

/// The canonical names that carry parameters, spelled out.
proof fn lemma_parameterized_names()
    ensures
        "decimal(38,0)"@ == seq!['d', 'e', 'c', 'i', 'm', 'a', 'l', '(', '3', '8', ',', '0', ')'],
        "varchar(2147483646)"@ == seq![
            'v', 'a', 'r', 'c', 'h', 'a', 'r', '(', '2', '1', '4', '7', '4', '8', '3', '6',
            '4', '6', ')',
        ],
        "time(3)"@ == seq!['t', 'i', 'm', 'e', '(', '3', ')'],
        "timestamp(3)"@ == seq!['t', 'i', 'm', 'e', 's', 't', 'a', 'm', 'p', '(', '3', ')'],
        "map(varchar,json)"@ == seq![
            'm', 'a', 'p', '(', 'v', 'a', 'r', 'c', 'h', 'a', 'r', ',', 'j', 's', 'o', 'n',
            ')',
        ],
        ")"@ == seq![')'],
{
    reveal_strlit("decimal(38,0)");
    reveal_strlit("varchar(2147483646)");
    reveal_strlit("time(3)");
    reveal_strlit("timestamp(3)");
    reveal_strlit("map(varchar,json)");
    reveal_strlit(")");
}

/// The canonical names that carry parameters match their patterns.
proof fn lemma_parameterized_names_match()
    ensures
        is_decimal("decimal(38,0)"@),
        is_varchar("varchar(2147483646)"@),
        is_time("time(3)"@),
        is_timestamp("timestamp(3)"@),
        is_map("map(varchar,json)"@),
{
    lemma_heads();
    lemma_parameterized_names();
    let d = "decimal(38,0)"@;
    assert(d.subrange(0, 8) =~= "decimal("@);
    let dp = payload(d, "decimal("@);
    assert(is_digits(dp.take(2)));
    let v = "varchar(2147483646)"@;
    assert(v.subrange(0, 8) =~= "varchar("@);
    let t = "time(3)"@;
    assert(t.subrange(0, 5) =~= "time("@);
    let ts = "timestamp(3)"@;
    assert(ts.subrange(0, 10) =~= "timestamp("@);
    let m = "map(varchar,json)"@;
    assert(m.subrange(0, 4) =~= "map("@);
    let mp = payload(m, "map("@);
    assert(mp[7] == ',');
}

/// No canonical name of a descriptor without parts holds a line feed, and
/// none is empty.
proof fn lemma_fixed_names_plain()
    ensures
        is_plain("tinyint"@),
        is_plain("smallint"@),
        is_plain("integer"@),
        is_plain("bigint"@),
        is_plain("real"@),
        is_plain("double"@),
        is_plain("decimal(38,0)"@),
        is_plain("varchar(2147483646)"@),
        is_plain("boolean"@),
        is_plain("date"@),
        is_plain("time(3)"@),
        is_plain("timestamp(3)"@),
        is_plain("timestamp with time zone"@),
        is_plain("varbinary"@),
        is_plain("json"@),
        is_plain("uuid"@),
        is_plain("map(varchar,json)"@),
{
    lemma_keywords();
    lemma_parameterized_names();
}

/// An array name built around a plain element name is an array name, and
/// its payload is the element name.
proof fn lemma_array_name(inner: Seq<char>)
    requires
        is_plain(inner),
    ensures
        is_array("array("@ + inner + ")"@),
        payload("array("@ + inner + ")"@, "array("@) == inner,
        is_plain("array("@ + inner + ")"@),
{
    lemma_heads();
    lemma_parameterized_names();
    let name = "array("@ + inner + ")"@;
    assert(name.subrange(0, 6) =~= "array("@);
    assert(!has_char(name, '\n')) by {
        if has_char(name, '\n') {
            let i = choose|i: int| 0 <= i < name.len() && #[trigger] name[i] == '\n';
            assert(6 <= i < 6 + inner.len() ==> inner[i - 6] == '\n');
        }
    }
}

/// Classification is idempotent through canonical names: the canonical name
/// of the descriptor of any name has that same descriptor.
pub proof fn lemma_canonical_name_classifies_back(s: Seq<char>)
    ensures
        classify_spec(canonical_name_spec(classify_spec(s))) == classify_spec(s),
        is_plain(s) ==> is_plain(canonical_name_spec(classify_spec(s))),
    decreases s.len(),
{
    lemma_keyword_table();
    lemma_parameterized_names_match();
    lemma_fixed_names_plain();
    lemma_pattern_table("decimal(38,0)"@);
    lemma_pattern_table("varchar(2147483646)"@);
    lemma_pattern_table("time(3)"@);
    lemma_pattern_table("timestamp(3)"@);
    lemma_pattern_table("map(varchar,json)"@);
    lemma_pattern_table(s);
    if is_array(s) {
        let inner = payload(s, "array("@);
        let element = classify_spec(inner);
        lemma_canonical_name_classifies_back(inner);
        let name = canonical_name_spec(element);
        lemma_array_name(name);
        lemma_pattern_table("array("@ + name + ")"@);
    }
}

} // verus!
