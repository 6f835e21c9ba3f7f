//! How native types are written in a schema.

use vstd::prelude::*;
use crate::native_types::{Length, MsSqlType};

verus! {

/// The character of a decimal digit.
pub open spec fn digit(d: int) -> char {
    if d == 0 {
        '0'
    } else if d == 1 {
        '1'
    } else if d == 2 {
        '2'
    } else if d == 3 {
        '3'
    } else if d == 4 {
        '4'
    } else if d == 5 {
        '5'
    } else if d == 6 {
        '6'
    } else if d == 7 {
        '7'
    } else if d == 8 {
        '8'
    } else {
        '9'
    }
}

/// A number in decimal notation, without leading zeros.
pub open spec fn decimal(n: nat) -> Seq<char>
    decreases n,
{
    if n < 10 {
        seq![digit(n as int)]
    } else {
        decimal(n / 10).push(digit((n % 10) as int))
    }
}

/// One decimal digit as a string.
pub fn digit_str(d: u32) -> (r: &'static str)
    requires
        d < 10,
    ensures
        r@ == seq![digit(d as int)],
{
    proof {
        reveal_strlit("0");
        reveal_strlit("1");
        reveal_strlit("2");
        reveal_strlit("3");
        reveal_strlit("4");
        reveal_strlit("5");
        reveal_strlit("6");
        reveal_strlit("7");
        reveal_strlit("8");
        reveal_strlit("9");
    }
    let r = if d == 0 {
        "0"
    } else if d == 1 {
        "1"
    } else if d == 2 {
        "2"
    } else if d == 3 {
        "3"
    } else if d == 4 {
        "4"
    } else if d == 5 {
        "5"
    } else if d == 6 {
        "6"
    } else if d == 7 {
        "7"
    } else if d == 8 {
        "8"
    } else {
        "9"
    };
    r
}

/// Writes a number in decimal notation.
pub fn decimal_string(n: u32) -> (r: String)
    ensures
        r@ == decimal(n as nat),
    decreases n,
{
    if n < 10 {
        digit_str(n).to_owned()
    } else {
        decimal_string(n / 10).concat(digit_str(n % 10))
    }
}

/// How a length is written.
pub open spec fn length_text(l: Length) -> Seq<char> {
    match l {
        Length::Number(n) => decimal(n as nat),
        Length::Max => "Max"@,
    }
}

/// A name followed by one parameter in parentheses.
pub open spec fn with_parameter(name: Seq<char>, parameter: Seq<char>) -> Seq<char> {
    name + "("@ + parameter + ")"@
}

impl MsSqlType {
    /// The name of the type, without parameters.
    pub open spec fn name(self) -> Seq<char> {
        match self {
            MsSqlType::TinyInt => "TinyInt"@,
            MsSqlType::SmallInt => "SmallInt"@,
            MsSqlType::Int => "Int"@,
            MsSqlType::BigInt => "BigInt"@,
            MsSqlType::Decimal(_) => "Decimal"@,
            MsSqlType::Numeric(_) => "Numeric"@,
            MsSqlType::Money => "Money"@,
            MsSqlType::SmallMoney => "SmallMoney"@,
            MsSqlType::Bit => "Bit"@,
            MsSqlType::Float(_) => "Float"@,
            MsSqlType::Real => "Real"@,
            MsSqlType::Date => "Date"@,
            MsSqlType::Time => "Time"@,
            MsSqlType::DateTime => "DateTime"@,
            MsSqlType::DateTime2 => "DateTime2"@,
            MsSqlType::Char(_) => "Char"@,
            MsSqlType::NChar(_) => "NChar"@,
            MsSqlType::VarChar(_) => "VarChar"@,
            MsSqlType::Text => "Text"@,
            MsSqlType::NVarChar(_) => "NVarChar"@,
            MsSqlType::NText => "NText"@,
            MsSqlType::Binary(_) => "Binary"@,
            MsSqlType::VarBinary(_) => "VarBinary"@,
            MsSqlType::Image => "Image"@,
            MsSqlType::Xml => "Xml"@,
        }
    }

    /// The parameters of the type as they are written between the
    /// parentheses; `None` where nothing follows the name.
    pub open spec fn parameters(self) -> Option<Seq<char>> {
        match self {
            MsSqlType::Decimal(Some(p)) | MsSqlType::Numeric(Some(p)) => Some(
                decimal(p.precision as nat) + ", "@ + decimal(p.scale as nat),
            ),
            MsSqlType::Float(n) | MsSqlType::Char(n) | MsSqlType::NChar(n) | MsSqlType::Binary(
                n,
            ) => Some(decimal(n as nat)),
            MsSqlType::VarChar(l) | MsSqlType::NVarChar(l) | MsSqlType::VarBinary(l) => Some(
                length_text(l),
            ),
            _ => None,
        }
    }

    /// The type as a schema writes it: `VarChar(500)`, `Decimal(5, 3)`, `Xml`.
    pub open spec fn text(self) -> Seq<char> {
        match self.parameters() {
            Some(parameters) => with_parameter(self.name(), parameters),
            None => self.name(),
        }
    }

    /// The name of the type, without parameters.
    pub fn name_str(&self) -> (r: &'static str)
        ensures
            r@ == self.name(),
    {
        match self {
            MsSqlType::TinyInt => "TinyInt",
            MsSqlType::SmallInt => "SmallInt",
            MsSqlType::Int => "Int",
            MsSqlType::BigInt => "BigInt",
            MsSqlType::Decimal(_) => "Decimal",
            MsSqlType::Numeric(_) => "Numeric",
            MsSqlType::Money => "Money",
            MsSqlType::SmallMoney => "SmallMoney",
            MsSqlType::Bit => "Bit",
            MsSqlType::Float(_) => "Float",
            MsSqlType::Real => "Real",
            MsSqlType::Date => "Date",
            MsSqlType::Time => "Time",
            MsSqlType::DateTime => "DateTime",
            MsSqlType::DateTime2 => "DateTime2",
            MsSqlType::Char(_) => "Char",
            MsSqlType::NChar(_) => "NChar",
            MsSqlType::VarChar(_) => "VarChar",
            MsSqlType::Text => "Text",
            MsSqlType::NVarChar(_) => "NVarChar",
            MsSqlType::NText => "NText",
            MsSqlType::Binary(_) => "Binary",
            MsSqlType::VarBinary(_) => "VarBinary",
            MsSqlType::Image => "Image",
            MsSqlType::Xml => "Xml",
        }
    }

    /// Writes the parameters of the type, if it has any.
    pub fn parameters_string(&self) -> (r: Option<String>)
        ensures
            match r {
                Some(p) => self.parameters() == Some(p@),
                None => self.parameters() is None,
            },
    {
        match self {
            MsSqlType::Decimal(Some(p)) | MsSqlType::Numeric(Some(p)) => Some(
                decimal_string(p.precision).concat(", ").concat(decimal_string(p.scale).as_str()),
            ),
            MsSqlType::Float(n) | MsSqlType::Char(n) | MsSqlType::NChar(n) | MsSqlType::Binary(
                n,
            ) => Some(decimal_string(*n)),
            MsSqlType::VarChar(l) | MsSqlType::NVarChar(l) | MsSqlType::VarBinary(l) => match l {
                Length::Number(n) => Some(decimal_string(*n)),
                Length::Max => Some("Max".to_owned()),
            },
            _ => None,
        }
    }

    /// Writes the type as a schema writes it.
    pub fn to_text(&self) -> (r: String)
        ensures
            r@ == self.text(),
    {
        match self.parameters_string() {
            Some(parameters) => self.name_str().to_owned().concat("(").concat(
                parameters.as_str(),
            ).concat(")"),
            None => self.name_str().to_owned(),
        }
    }
}

} // verus!
