//! Reading native types from the way they are written.

use vstd::prelude::*;
use crate::native_text::{decimal, digit};
use crate::native_types::{
    introspect_type, introspected, DecimalParams, FieldType, Length, MsSqlType,
};
use crate::text::{
    find_first, first_index_of, lemma_first_index_of, lemma_first_index_of_unique, slice, str_eq,
};

verus! {

/// The value of a decimal digit; `None` for any other character.
pub open spec fn digit_value(c: char) -> Option<nat> {
    if c == '0' {
        Some(0)
    } else if c == '1' {
        Some(1)
    } else if c == '2' {
        Some(2)
    } else if c == '3' {
        Some(3)
    } else if c == '4' {
        Some(4)
    } else if c == '5' {
        Some(5)
    } else if c == '6' {
        Some(6)
    } else if c == '7' {
        Some(7)
    } else if c == '8' {
        Some(8)
    } else if c == '9' {
        Some(9)
    } else {
        None
    }
}

/// The number that `s` writes in decimal notation; `None` where `s` is empty
/// or holds anything but digits.
pub open spec fn number_value(s: Seq<char>) -> Option<nat>
    decreases s.len(),
{
    if s.len() == 0 {
        None
    } else {
        match digit_value(s.last()) {
            None => None,
            Some(d) => if s.len() == 1 {
                Some(d)
            } else {
                match number_value(s.drop_last()) {
                    Some(v) => Some(v * 10 + d),
                    None => None,
                }
            },
        }
    }
}

/// The number that `s` writes, where it fits 32 bits.
pub open spec fn number(s: Seq<char>) -> Option<u32> {
    match number_value(s) {
        Some(v) => if v <= u32::MAX {
            Some(v as u32)
        } else {
            None
        },
        None => None,
    }
}

/// A character that is no digit leaves no number.
proof fn lemma_not_a_number(s: Seq<char>, i: int)
    requires
        0 <= i < s.len(),
        digit_value(s[i]) is None,
    ensures
        number_value(s) is None,
    decreases s.len(),
{
    if i < s.len() - 1 {
        lemma_not_a_number(s.drop_last(), i);
    }
}

/// The first digits of a number write a number that is not greater.
proof fn lemma_number_prefix(s: Seq<char>, k: int)
    requires
        1 <= k <= s.len(),
        number_value(s) is Some,
    ensures
        number_value(s.take(k)) is Some,
        number_value(s.take(k))->Some_0 <= number_value(s)->Some_0,
    decreases s.len(),
{
    if k == s.len() {
        assert(s.take(k) =~= s);
    } else {
        assert(s.drop_last().take(k) =~= s.take(k));
        lemma_number_prefix(s.drop_last(), k);
    }
}

/// Reads one decimal digit.
pub fn digit_of(c: char) -> (r: Option<u32>)
    ensures
        match r {
            Some(d) => digit_value(c) == Some(d as nat) && d < 10,
            None => digit_value(c) is None,
        },
{
    if c == '0' {
        Some(0)
    } else if c == '1' {
        Some(1)
    } else if c == '2' {
        Some(2)
    } else if c == '3' {
        Some(3)
    } else if c == '4' {
        Some(4)
    } else if c == '5' {
        Some(5)
    } else if c == '6' {
        Some(6)
    } else if c == '7' {
        Some(7)
    } else if c == '8' {
        Some(8)
    } else if c == '9' {
        Some(9)
    } else {
        None
    }
}

/// Reads a number in decimal notation.
pub fn parse_number(s: &str) -> (r: Option<u32>)
    ensures
        r == number(s@),
{
    let n = s.unicode_len();
    if n == 0 {
        return None;
    }
    let mut acc: u64 = 0;
    let mut i: usize = 0;
    while i < n
        invariant
            i <= n,
            n == s@.len(),
            acc <= u32::MAX,
            i > 0 ==> number_value(s@.take(i as int)) == Some(acc as nat),
            i == 0 ==> acc == 0,
        decreases n - i,
    {
        let d = match digit_of(s.get_char(i)) {
            Some(d) => d,
            None => {
                proof {
                    lemma_not_a_number(s@, i as int);
                }
                return None;
            },
        };
        assert(s@.take(i + 1).drop_last() =~= s@.take(i as int));
        let next: u64 = acc * 10 + d as u64;
        if next > 0xffff_ffff {
            proof {
                if number_value(s@) is Some {
                    lemma_number_prefix(s@, i + 1);
                }
            }
            return None;
        }
        acc = next;
        i += 1;
    }
    assert(s@.take(n as int) =~= s@);
    Some(acc as u32)
}

/// `s` without the spaces in front of it.
pub open spec fn without_leading_spaces(s: Seq<char>) -> Seq<char>
    decreases s.len(),
{
    if s.len() > 0 && s[0] == ' ' {
        without_leading_spaces(s.drop_first())
    } else {
        s
    }
}

/// Behind `k` spaces in front, what is left of `s` decides.
proof fn lemma_leading_spaces(s: Seq<char>, k: int)
    requires
        0 <= k <= s.len(),
        forall|j: int| 0 <= j < k ==> s[j] == ' ',
    ensures
        without_leading_spaces(s) == without_leading_spaces(s.skip(k)),
    decreases k,
{
    if k == 0 {
        assert(s.skip(0) =~= s);
    } else {
        let t = s.drop_first();
        lemma_leading_spaces(t, k - 1);
        assert(t.skip(k - 1) =~= s.skip(k));
    }
}

/// Drops the spaces in front of `s`.
pub fn trim_leading_spaces(s: &str) -> (r: String)
    ensures
        r@ == without_leading_spaces(s@),
{
    let n = s.unicode_len();
    let mut i: usize = 0;
    while i < n && s.get_char(i) == ' '
        invariant
            i <= n,
            n == s@.len(),
            forall|j: int| 0 <= j < i ==> s@[j] == ' ',
        decreases n - i,
    {
        i += 1;
    }
    proof {
        lemma_leading_spaces(s@, i as int);
    }
    let r = slice(s, i, n);
    r
}

/// Precision and scale as they are written: two numbers with a comma
/// between them; spaces may follow the comma.
pub open spec fn decimal_params(s: Seq<char>) -> Option<DecimalParams> {
    let comma = first_index_of(s, ',');
    if comma >= s.len() {
        None
    } else {
        match (number(s.take(comma)), number(without_leading_spaces(s.skip(comma + 1)))) {
            (Some(precision), Some(scale)) => Some(DecimalParams { precision, scale }),
            _ => None,
        }
    }
}

/// A length as it is written: a number or `Max`.
pub open spec fn length(s: Seq<char>) -> Option<Length> {
    if s == "Max"@ {
        Some(Length::Max)
    } else {
        match number(s) {
            Some(n) => Some(Length::Number(n)),
            None => None,
        }
    }
}

/// The type that a name without parameters writes.
pub open spec fn bare_type(name: Seq<char>) -> Option<MsSqlType> {
    if name == "TinyInt"@ {
        Some(MsSqlType::TinyInt)
    } else if name == "SmallInt"@ {
        Some(MsSqlType::SmallInt)
    } else if name == "Int"@ {
        Some(MsSqlType::Int)
    } else if name == "BigInt"@ {
        Some(MsSqlType::BigInt)
    } else if name == "Decimal"@ {
        Some(MsSqlType::Decimal(None))
    } else if name == "Numeric"@ {
        Some(MsSqlType::Numeric(None))
    } else if name == "Money"@ {
        Some(MsSqlType::Money)
    } else if name == "SmallMoney"@ {
        Some(MsSqlType::SmallMoney)
    } else if name == "Bit"@ {
        Some(MsSqlType::Bit)
    } else if name == "Real"@ {
        Some(MsSqlType::Real)
    } else if name == "Date"@ {
        Some(MsSqlType::Date)
    } else if name == "Time"@ {
        Some(MsSqlType::Time)
    } else if name == "DateTime"@ {
        Some(MsSqlType::DateTime)
    } else if name == "DateTime2"@ {
        Some(MsSqlType::DateTime2)
    } else if name == "Text"@ {
        Some(MsSqlType::Text)
    } else if name == "NText"@ {
        Some(MsSqlType::NText)
    } else if name == "Image"@ {
        Some(MsSqlType::Image)
    } else if name == "Xml"@ {
        Some(MsSqlType::Xml)
    } else {
        None
    }
}

/// The type that a name with the parameters `args` writes.
pub open spec fn parameterized_type(name: Seq<char>, args: Seq<char>) -> Option<MsSqlType> {
    if name == "Decimal"@ {
        match decimal_params(args) {
            Some(p) => Some(MsSqlType::Decimal(Some(p))),
            None => None,
        }
    } else if name == "Numeric"@ {
        match decimal_params(args) {
            Some(p) => Some(MsSqlType::Numeric(Some(p))),
            None => None,
        }
    } else if name == "Float"@ {
        match number(args) {
            Some(n) => Some(MsSqlType::Float(n)),
            None => None,
        }
    } else if name == "Char"@ {
        match number(args) {
            Some(n) => Some(MsSqlType::Char(n)),
            None => None,
        }
    } else if name == "NChar"@ {
        match number(args) {
            Some(n) => Some(MsSqlType::NChar(n)),
            None => None,
        }
    } else if name == "Binary"@ {
        match number(args) {
            Some(n) => Some(MsSqlType::Binary(n)),
            None => None,
        }
    } else if name == "VarChar"@ {
        match length(args) {
            Some(l) => Some(MsSqlType::VarChar(l)),
            None => None,
        }
    } else if name == "NVarChar"@ {
        match length(args) {
            Some(l) => Some(MsSqlType::NVarChar(l)),
            None => None,
        }
    } else if name == "VarBinary"@ {
        match length(args) {
            Some(l) => Some(MsSqlType::VarBinary(l)),
            None => None,
        }
    } else {
        None
    }
}

/// The native type that `text` writes: a name, or a name with parameters
/// between one pair of parentheses that ends the text.
pub open spec fn native_type_of(text: Seq<char>) -> Option<MsSqlType> {
    let open = first_index_of(text, '(');
    if open >= text.len() {
        bare_type(text)
    } else if text.last() != ')' {
        None
    } else {
        parameterized_type(text.take(open), text.subrange(open + 1, text.len() - 1))
    }
}

/// Reads precision and scale.
pub fn parse_decimal_params(s: &str) -> (r: Option<DecimalParams>)
    ensures
        r == decimal_params(s@),
{
    let n = s.unicode_len();
    let comma = find_first(s, ',');
    proof {
        lemma_first_index_of(s@, ',');
    }
    if comma >= n {
        return None;
    }
    let first = slice(s, 0, comma);
    let rest = slice(s, comma + 1, n);
    let second = trim_leading_spaces(rest.as_str());
    match (parse_number(first.as_str()), parse_number(second.as_str())) {
        (Some(precision), Some(scale)) => Some(DecimalParams { precision, scale }),
        _ => None,
    }
}

/// Reads a length.
pub fn parse_length(s: &str) -> (r: Option<Length>)
    ensures
        r == length(s@),
{
    if str_eq(s, "Max") {
        Some(Length::Max)
    } else {
        match parse_number(s) {
            Some(n) => Some(Length::Number(n)),
            None => None,
        }
    }
}

/// Reads a type that is written without parameters.
pub fn parse_bare(name: &str) -> (r: Option<MsSqlType>)
    ensures
        r == bare_type(name@),
{
    if str_eq(name, "TinyInt") {
        Some(MsSqlType::TinyInt)
    } else if str_eq(name, "SmallInt") {
        Some(MsSqlType::SmallInt)
    } else if str_eq(name, "Int") {
        Some(MsSqlType::Int)
    } else if str_eq(name, "BigInt") {
        Some(MsSqlType::BigInt)
    } else if str_eq(name, "Decimal") {
        Some(MsSqlType::Decimal(None))
    } else if str_eq(name, "Numeric") {
        Some(MsSqlType::Numeric(None))
    } else if str_eq(name, "Money") {
        Some(MsSqlType::Money)
    } else if str_eq(name, "SmallMoney") {
        Some(MsSqlType::SmallMoney)
    } else if str_eq(name, "Bit") {
        Some(MsSqlType::Bit)
    } else if str_eq(name, "Real") {
        Some(MsSqlType::Real)
    } else if str_eq(name, "Date") {
        Some(MsSqlType::Date)
    } else if str_eq(name, "Time") {
        Some(MsSqlType::Time)
    } else if str_eq(name, "DateTime") {
        Some(MsSqlType::DateTime)
    } else if str_eq(name, "DateTime2") {
        Some(MsSqlType::DateTime2)
    } else if str_eq(name, "Text") {
        Some(MsSqlType::Text)
    } else if str_eq(name, "NText") {
        Some(MsSqlType::NText)
    } else if str_eq(name, "Image") {
        Some(MsSqlType::Image)
    } else if str_eq(name, "Xml") {
        Some(MsSqlType::Xml)
    } else {
        None
    }
}

/// Reads a type that is written with parameters.
pub fn parse_parameterized(name: &str, args: &str) -> (r: Option<MsSqlType>)
    ensures
        r == parameterized_type(name@, args@),
{
    if str_eq(name, "Decimal") {
        match parse_decimal_params(args) {
            Some(p) => Some(MsSqlType::Decimal(Some(p))),
            None => None,
        }
    } else if str_eq(name, "Numeric") {
        match parse_decimal_params(args) {
            Some(p) => Some(MsSqlType::Numeric(Some(p))),
            None => None,
        }
    } else if str_eq(name, "Float") {
        match parse_number(args) {
            Some(n) => Some(MsSqlType::Float(n)),
            None => None,
        }
    } else if str_eq(name, "Char") {
        match parse_number(args) {
            Some(n) => Some(MsSqlType::Char(n)),
            None => None,
        }
    } else if str_eq(name, "NChar") {
        match parse_number(args) {
            Some(n) => Some(MsSqlType::NChar(n)),
            None => None,
        }
    } else if str_eq(name, "Binary") {
        match parse_number(args) {
            Some(n) => Some(MsSqlType::Binary(n)),
            None => None,
        }
    } else if str_eq(name, "VarChar") {
        match parse_length(args) {
            Some(l) => Some(MsSqlType::VarChar(l)),
            None => None,
        }
    } else if str_eq(name, "NVarChar") {
        match parse_length(args) {
            Some(l) => Some(MsSqlType::NVarChar(l)),
            None => None,
        }
    } else if str_eq(name, "VarBinary") {
        match parse_length(args) {
            Some(l) => Some(MsSqlType::VarBinary(l)),
            None => None,
        }
    } else {
        None
    }
}

/// Reads a native type from the way it is written, `VarChar(500)` or
/// `Decimal(5,3)`; `None` for what the catalog does not hold.
pub fn parse_native_type(text: &str) -> (r: Option<MsSqlType>)
    ensures
        r == native_type_of(text@),
{
    let n = text.unicode_len();
    let open = find_first(text, '(');
    proof {
        lemma_first_index_of(text@, '(');
    }
    if open >= n {
        return parse_bare(text);
    }
    if text.get_char(n - 1) != ')' {
        return None;
    }
    let name = slice(text, 0, open);
    let args = slice(text, open + 1, n - 1);
    parse_parameterized(name.as_str(), args.as_str())
}

/// A number in decimal notation holds digits only, at least one, and
/// writes the number it was made from.
pub proof fn lemma_decimal(n: nat)
    ensures
        decimal(n).len() >= 1,
        forall|j: int| 0 <= j < decimal(n).len() ==> digit_value(#[trigger] decimal(n)[j]) is Some,
        number_value(decimal(n)) == Some(n),
    decreases n,
{
    if n >= 10 {
        let head = decimal(n / 10);
        let d = digit((n % 10) as int);
        lemma_decimal(n / 10);
        assert(head.push(d).drop_last() =~= head);
    }
}

/// Reading what was written gives the number back.
pub proof fn lemma_number_of_decimal(n: u32)
    ensures
        number(decimal(n as nat)) == Some(n),
{
    lemma_decimal(n as nat);
}

/// Makes the characters of the type names known.
proof fn lemma_reveal_names()
    ensures
        "TinyInt"@ =~= seq!['T', 'i', 'n', 'y', 'I', 'n', 't'],
        "SmallInt"@ =~= seq!['S', 'm', 'a', 'l', 'l', 'I', 'n', 't'],
        "Int"@ =~= seq!['I', 'n', 't'],
        "BigInt"@ =~= seq!['B', 'i', 'g', 'I', 'n', 't'],
        "Decimal"@ =~= seq!['D', 'e', 'c', 'i', 'm', 'a', 'l'],
        "Numeric"@ =~= seq!['N', 'u', 'm', 'e', 'r', 'i', 'c'],
        "Money"@ =~= seq!['M', 'o', 'n', 'e', 'y'],
        "SmallMoney"@ =~= seq!['S', 'm', 'a', 'l', 'l', 'M', 'o', 'n', 'e', 'y'],
        "Bit"@ =~= seq!['B', 'i', 't'],
        "Float"@ =~= seq!['F', 'l', 'o', 'a', 't'],
        "Real"@ =~= seq!['R', 'e', 'a', 'l'],
        "Date"@ =~= seq!['D', 'a', 't', 'e'],
        "Time"@ =~= seq!['T', 'i', 'm', 'e'],
        "DateTime"@ =~= seq!['D', 'a', 't', 'e', 'T', 'i', 'm', 'e'],
        "DateTime2"@ =~= seq!['D', 'a', 't', 'e', 'T', 'i', 'm', 'e', '2'],
        "Char"@ =~= seq!['C', 'h', 'a', 'r'],
        "NChar"@ =~= seq!['N', 'C', 'h', 'a', 'r'],
        "VarChar"@ =~= seq!['V', 'a', 'r', 'C', 'h', 'a', 'r'],
        "Text"@ =~= seq!['T', 'e', 'x', 't'],
        "NVarChar"@ =~= seq!['N', 'V', 'a', 'r', 'C', 'h', 'a', 'r'],
        "NText"@ =~= seq!['N', 'T', 'e', 'x', 't'],
        "Binary"@ =~= seq!['B', 'i', 'n', 'a', 'r', 'y'],
        "VarBinary"@ =~= seq!['V', 'a', 'r', 'B', 'i', 'n', 'a', 'r', 'y'],
        "Image"@ =~= seq!['I', 'm', 'a', 'g', 'e'],
        "Xml"@ =~= seq!['X', 'm', 'l'],
{
    reveal_strlit("TinyInt");
    reveal_strlit("SmallInt");
    reveal_strlit("Int");
    reveal_strlit("BigInt");
    reveal_strlit("Decimal");
    reveal_strlit("Numeric");
    reveal_strlit("Money");
    reveal_strlit("SmallMoney");
    reveal_strlit("Bit");
    reveal_strlit("Float");
    reveal_strlit("Real");
    reveal_strlit("Date");
    reveal_strlit("Time");
    reveal_strlit("DateTime");
    reveal_strlit("DateTime2");
    reveal_strlit("Char");
    reveal_strlit("NChar");
    reveal_strlit("VarChar");
    reveal_strlit("Text");
    reveal_strlit("NVarChar");
    reveal_strlit("NText");
    reveal_strlit("Binary");
    reveal_strlit("VarBinary");
    reveal_strlit("Image");
    reveal_strlit("Xml");
}

/// What tells one type name from every other: its length, its first and its
/// last character.
#[verifier::opaque]
spec fn mark(s: Seq<char>) -> (nat, char, char) {
    (s.len(), s.first(), s.last())
}

/// The marks of the type names.
proof fn lemma_name_marks()
    ensures
        mark("TinyInt"@) == (7nat, 'T', 't'),
        mark("SmallInt"@) == (8nat, 'S', 't'),
        mark("Int"@) == (3nat, 'I', 't'),
        mark("BigInt"@) == (6nat, 'B', 't'),
        mark("Decimal"@) == (7nat, 'D', 'l'),
        mark("Numeric"@) == (7nat, 'N', 'c'),
        mark("Money"@) == (5nat, 'M', 'y'),
        mark("SmallMoney"@) == (10nat, 'S', 'y'),
        mark("Bit"@) == (3nat, 'B', 't'),
        mark("Float"@) == (5nat, 'F', 't'),
        mark("Real"@) == (4nat, 'R', 'l'),
        mark("Date"@) == (4nat, 'D', 'e'),
        mark("Time"@) == (4nat, 'T', 'e'),
        mark("DateTime"@) == (8nat, 'D', 'e'),
        mark("DateTime2"@) == (9nat, 'D', '2'),
        mark("Char"@) == (4nat, 'C', 'r'),
        mark("NChar"@) == (5nat, 'N', 'r'),
        mark("VarChar"@) == (7nat, 'V', 'r'),
        mark("Text"@) == (4nat, 'T', 't'),
        mark("NVarChar"@) == (8nat, 'N', 'r'),
        mark("NText"@) == (5nat, 'N', 't'),
        mark("Binary"@) == (6nat, 'B', 'y'),
        mark("VarBinary"@) == (9nat, 'V', 'y'),
        mark("Image"@) == (5nat, 'I', 'e'),
        mark("Xml"@) == (3nat, 'X', 'l'),
{
    reveal(mark);
    reveal_strlit("TinyInt");
    reveal_strlit("SmallInt");
    reveal_strlit("Int");
    reveal_strlit("BigInt");
    reveal_strlit("Decimal");
    reveal_strlit("Numeric");
    reveal_strlit("Money");
    reveal_strlit("SmallMoney");
    reveal_strlit("Bit");
    reveal_strlit("Float");
    reveal_strlit("Real");
    reveal_strlit("Date");
    reveal_strlit("Time");
    reveal_strlit("DateTime");
    reveal_strlit("DateTime2");
    reveal_strlit("Char");
    reveal_strlit("NChar");
    reveal_strlit("VarChar");
    reveal_strlit("Text");
    reveal_strlit("NVarChar");
    reveal_strlit("NText");
    reveal_strlit("Binary");
    reveal_strlit("VarBinary");
    reveal_strlit("Image");
    reveal_strlit("Xml");
}

/// A type name holds no parenthesis, and read back it is the name of its
/// type.
proof fn lemma_names(t: MsSqlType)
    ensures
        forall|j: int| 0 <= j < t.name().len() ==> #[trigger] t.name()[j] != '(',
        t.parameters() is None ==> bare_type(t.name()) == Some(t),
{
    lemma_reveal_names();
    lemma_name_marks();
}

/// Precision and scale are read back from the way they are written, however
/// many spaces follow the comma.
pub proof fn lemma_decimal_params(p: DecimalParams, gap: Seq<char>)
    requires
        forall|j: int| 0 <= j < gap.len() ==> gap[j] == ' ',
    ensures
        decimal_params(
            decimal(p.precision as nat) + seq![','] + gap + decimal(p.scale as nat),
        ) == Some(p),
{
    let first = decimal(p.precision as nat);
    let second = decimal(p.scale as nat);
    let s = first + seq![','] + gap + second;
    lemma_decimal(p.precision as nat);
    lemma_decimal(p.scale as nat);
    lemma_first_index_of_unique(s, ',', first.len() as int);
    assert(s.take(first.len() as int) =~= first);
    let rest = s.skip(first.len() as int + 1);
    lemma_leading_spaces(rest, gap.len() as int);
    assert(rest.skip(gap.len() as int) =~= second);
}

/// The parameters of a type are read back, under its name, from the way
/// they are written.
proof fn lemma_parameters(t: MsSqlType)
    requires
        t.parameters() is Some,
    ensures
        parameterized_type(t.name(), t.parameters()->Some_0) == Some(t),
{
    lemma_name_marks();
    match t {
        MsSqlType::Decimal(Some(p)) | MsSqlType::Numeric(Some(p)) => {
            reveal_strlit(", ");
            lemma_decimal_params(p, seq![' ']);
            assert(t.parameters()->Some_0 =~= decimal(p.precision as nat) + seq![','] + seq![' ']
                + decimal(p.scale as nat));
        },
        MsSqlType::Float(n) | MsSqlType::Char(n) | MsSqlType::NChar(n) | MsSqlType::Binary(n) => {
            lemma_number_of_decimal(n);
        },
        MsSqlType::VarChar(l) | MsSqlType::NVarChar(l) | MsSqlType::VarBinary(l) => {
            match l {
                Length::Number(n) => {
                    reveal_strlit("Max");
                    lemma_decimal(n as nat);
                    lemma_number_of_decimal(n);
                },
                Length::Max => {},
            }
        },
        _ => {},
    }
}

/// Reading a type from the way a schema writes it gives the type back.
pub proof fn lemma_parse_text(t: MsSqlType)
    ensures
        native_type_of(t.text()) == Some(t),
{
    lemma_names(t);
    let name = t.name();
    match t.parameters() {
        None => {
            lemma_first_index_of_unique(name, '(', name.len() as int);
        },
        Some(params) => {
            reveal_strlit("(");
            reveal_strlit(")");
            let text = t.text();
            assert(text[name.len() as int] == '(');
            lemma_first_index_of_unique(text, '(', name.len() as int);
            assert(text.take(name.len() as int) =~= name);
            assert(text.last() == ')');
            assert(text.subrange(name.len() as int + 1, text.len() - 1) =~= params);
            lemma_parameters(t);
        },
    }
}

/// A decimal is read as well where nothing, or more than one space, follows
/// the comma between precision and scale.
pub proof fn lemma_parse_decimal(p: DecimalParams, gap: Seq<char>)
    requires
        forall|j: int| 0 <= j < gap.len() ==> gap[j] == ' ',
    ensures
        native_type_of(
            "Decimal"@ + "("@ + (decimal(p.precision as nat) + seq![','] + gap + decimal(
                p.scale as nat,
            )) + ")"@,
        ) == Some(MsSqlType::Decimal(Some(p))),
        native_type_of(
            "Numeric"@ + "("@ + (decimal(p.precision as nat) + seq![','] + gap + decimal(
                p.scale as nat,
            )) + ")"@,
        ) == Some(MsSqlType::Numeric(Some(p))),
{
    let params = decimal(p.precision as nat) + seq![','] + gap + decimal(p.scale as nat);
    lemma_decimal_params(p, gap);
    lemma_name_marks();
    reveal_strlit("(");
    reveal_strlit(")");
    lemma_names(MsSqlType::Decimal(None));
    lemma_names(MsSqlType::Numeric(None));
    let name = "Decimal"@;
    let text = name + "("@ + params + ")"@;
    assert forall|j: int| 0 <= j < name.len() implies text[j] != '(' by {
        assert(MsSqlType::Decimal(None).name()[j] != '(');
    }
    assert(text[name.len() as int] == '(');
    lemma_first_index_of_unique(text, '(', name.len() as int);
    assert(text.take(name.len() as int) =~= name);
    assert(text.last() == ')');
    assert(text.subrange(name.len() as int + 1, text.len() - 1) =~= params);
    let name = "Numeric"@;
    let text = name + "("@ + params + ")"@;
    assert forall|j: int| 0 <= j < name.len() implies text[j] != '(' by {
        assert(MsSqlType::Numeric(None).name()[j] != '(');
    }
    assert(text[name.len() as int] == '(');
    lemma_first_index_of_unique(text, '(', name.len() as int);
    assert(text.take(name.len() as int) =~= name);
    assert(text.last() == ')');
    assert(text.subrange(name.len() as int + 1, text.len() - 1) =~= params);
}

/// The field that stands behind a column whose type is written as `text`.
pub open spec fn field_type_of(text: Seq<char>) -> Option<FieldType> {
    match native_type_of(text) {
        Some(native) => Some(introspected(native)),
        None => None,
    }
}

/// Looks a written type up in the catalog: the logical type that it stands
/// for and the annotation that a schema gives it.
pub fn lookup_field_type(text: &str) -> (r: Option<FieldType>)
    ensures
        r == field_type_of(text@),
{
    match parse_native_type(text) {
        Some(native) => Some(introspect_type(native)),
        None => None,
    }
}

/// The catalog maps both ways: the type of the column that a supported
/// field makes, written out and looked up again, stands for the same column,
/// and gives the field itself where the field is written canonically.
pub proof fn lemma_catalog_both_ways(field: FieldType)
    requires
        field.is_supported(),
    ensures
        field_type_of(field.applied()->Some_0.text()) is Some,
        field_type_of(field.applied()->Some_0.text())->Some_0.applied() == field.applied(),
        field.is_canonical() ==> field_type_of(field.applied()->Some_0.text()) == Some(field),
{
    lemma_parse_text(field.applied()->Some_0);
}

} // verus!
