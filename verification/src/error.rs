//! Errors of the codecs, and the messages that describe them.

use vstd::prelude::*;
use crate::text::{decimal, signed_decimal, push_str_chars, push_decimal, push_signed_decimal, string_from_chars};
use crate::types::{Type, TypeView, display_name};

verus! {

/// An error indicating that a `NULL` value was passed to a `FromSql`
/// implementation that does not support `NULL` values.
#[derive(Debug, Clone, Copy, PartialEq, Eq, Structural)]
pub struct WasNull;

/// An error indicating that a conversion was attempted between incompatible
/// Rust and database types.
#[derive(Debug)]
pub struct WrongType {
    postgres: Type,
    rust: &'static str,
}

impl WrongType {
    /// Creates a new `WrongType` error for the database type `ty` and the
    /// Rust type named `rust`.
    pub fn new(ty: Type, rust: &'static str) -> (r: WrongType)
        ensures
            r.postgres_type() == ty@,
            r.rust_type() == rust@,
    {
        WrongType { postgres: ty, rust }
    }

    /// The database type of the failed conversion.
    pub closed spec fn postgres_type(&self) -> TypeView {
        self.postgres@
    }

    /// The name of the Rust type of the failed conversion.
    pub closed spec fn rust_type(&self) -> Seq<char> {
        self.rust@
    }

    /// Describes the error.
    pub fn message(&self) -> (r: String)
        ensures
            r@ == "cannot convert between the Rust type `"@ + self.rust_type()
                + "` and the Postgres type `"@ + display_name(self.postgres_type()) + "`"@,
    {
        let mut v: Vec<char> = Vec::new();
        push_str_chars(&mut v, "cannot convert between the Rust type `");
        push_str_chars(&mut v, self.rust);
        push_str_chars(&mut v, "` and the Postgres type `");
        let t = self.postgres.to_text();
        push_str_chars(&mut v, t.as_str());
        push_str_chars(&mut v, "`");
        string_from_chars(&v)
    }
}

/// An error returned when decoding an Oracle interval wire value fails.
#[derive(Debug, Copy, Clone, PartialEq, Eq, Structural)]
pub enum OracleIntervalError {
    /// The wire value is not the 16-byte interval representation.
    InvalidWireLength {
        /// The actual payload length.
        actual: usize,
    },
    /// A YEAR TO MONTH interval contains day or time components.
    YearMonthContainsDayOrTime {
        /// The unexpected nanosecond component.
        nanoseconds: i64,
        /// The unexpected day component.
        days: i32,
    },
    /// A DAY TO SECOND interval contains a month component.
    DaySecondContainsMonths {
        /// The unexpected month component.
        months: i32,
    },
}

/// The message of an Oracle interval error.
pub open spec fn oracle_interval_message(e: OracleIntervalError) -> Seq<char> {
    match e {
        OracleIntervalError::InvalidWireLength { actual } =>
            "invalid Oracle interval wire length: "@ + decimal(actual as nat) + ", expected 16"@,
        OracleIntervalError::YearMonthContainsDayOrTime { nanoseconds, days } =>
            "Oracle YEAR TO MONTH interval contains day/time components: days="@
                + signed_decimal(days as int) + ", nanoseconds="@ + signed_decimal(nanoseconds as int),
        OracleIntervalError::DaySecondContainsMonths { months } =>
            "Oracle DAY TO SECOND interval contains months="@ + signed_decimal(months as int),
    }
}

impl OracleIntervalError {
    /// Describes the error.
    pub fn message(&self) -> (r: String)
        ensures
            r@ == oracle_interval_message(*self),
    {
        let mut v: Vec<char> = Vec::new();
        match *self {
            OracleIntervalError::InvalidWireLength { actual } => {
                push_str_chars(&mut v, "invalid Oracle interval wire length: ");
                push_decimal(&mut v, actual as u64);
                push_str_chars(&mut v, ", expected 16");
            },
            OracleIntervalError::YearMonthContainsDayOrTime { nanoseconds, days } => {
                push_str_chars(&mut v, "Oracle YEAR TO MONTH interval contains day/time components: days=");
                push_signed_decimal(&mut v, days as i64);
                push_str_chars(&mut v, ", nanoseconds=");
                push_signed_decimal(&mut v, nanoseconds);
            },
            OracleIntervalError::DaySecondContainsMonths { months } => {
                push_str_chars(&mut v, "Oracle DAY TO SECOND interval contains months=");
                push_signed_decimal(&mut v, months as i64);
            },
        }
        string_from_chars(&v)
    }
}

/// An error returned when constructing or decoding a MySQL BIT value fails.
#[derive(Debug, Copy, Clone, PartialEq, Eq, Structural)]
pub enum MySqlBitError {
    /// The logical bit length is outside MySQL BIT's supported range of 1 to 64 bits.
    InvalidBitLength {
        /// The rejected logical bit length.
        bit_len: u64,
    },
    /// The logical bit length exceeds the supported maximum of 64 bits.
    TooLong {
        /// The rejected logical bit length.
        bit_len: u64,
    },
    /// The payload length does not match the logical bit length.
    InvalidPayloadLength {
        /// The logical bit length.
        bit_len: u64,
        /// The required payload length in bytes.
        expected: usize,
        /// The actual payload length in bytes.
        actual: usize,
    },
    /// The numeric value cannot fit in the requested logical bit width.
    ValueTooLarge {
        /// The requested logical bit width.
        bit_len: u64,
        /// The rejected numeric value.
        value: u64,
    },
    /// The binary value is shorter than the 8-byte metadata header.
    MissingLengthHeader {
        /// The actual wire payload length in bytes.
        actual: usize,
    },
}

/// The message of a MySQL BIT error.
pub open spec fn mysql_bit_message(e: MySqlBitError) -> Seq<char> {
    match e {
        MySqlBitError::InvalidBitLength { bit_len } =>
            "bit length "@ + decimal(bit_len as nat) + " is outside the supported range of 1 to 64"@,
        MySqlBitError::TooLong { bit_len } =>
            "bit length "@ + decimal(bit_len as nat) + " exceeds the supported maximum of 64"@,
        MySqlBitError::InvalidPayloadLength { bit_len, expected, actual } =>
            "payload length "@ + decimal(actual as nat) + " does not match bit length "@
                + decimal(bit_len as nat) + "; expected "@ + decimal(expected as nat),
        MySqlBitError::ValueTooLarge { bit_len, value } =>
            "value "@ + decimal(value as nat) + " does not fit in "@ + decimal(bit_len as nat)
                + " bits"@,
        MySqlBitError::MissingLengthHeader { actual } =>
            "bit wire payload has "@ + decimal(actual as nat) + " bytes, expected at least 8"@,
    }
}

impl MySqlBitError {
    /// Describes the error.
    pub fn message(&self) -> (r: String)
        ensures
            r@ == mysql_bit_message(*self),
    {
        let mut v: Vec<char> = Vec::new();
        match *self {
            MySqlBitError::InvalidBitLength { bit_len } => {
                push_str_chars(&mut v, "bit length ");
                push_decimal(&mut v, bit_len);
                push_str_chars(&mut v, " is outside the supported range of 1 to 64");
            },
            MySqlBitError::TooLong { bit_len } => {
                push_str_chars(&mut v, "bit length ");
                push_decimal(&mut v, bit_len);
                push_str_chars(&mut v, " exceeds the supported maximum of 64");
            },
            MySqlBitError::InvalidPayloadLength { bit_len, expected, actual } => {
                push_str_chars(&mut v, "payload length ");
                push_decimal(&mut v, actual as u64);
                push_str_chars(&mut v, " does not match bit length ");
                push_decimal(&mut v, bit_len);
                push_str_chars(&mut v, "; expected ");
                push_decimal(&mut v, expected as u64);
            },
            MySqlBitError::ValueTooLarge { bit_len, value } => {
                push_str_chars(&mut v, "value ");
                push_decimal(&mut v, value);
                push_str_chars(&mut v, " does not fit in ");
                push_decimal(&mut v, bit_len);
                push_str_chars(&mut v, " bits");
            },
            MySqlBitError::MissingLengthHeader { actual } => {
                push_str_chars(&mut v, "bit wire payload has ");
                push_decimal(&mut v, actual as u64);
                push_str_chars(&mut v, " bytes, expected at least 8");
            },
        }
        string_from_chars(&v)
    }
}

/// An error returned when constructing or decoding a MySQL TIME value outside
/// its supported range.
#[derive(Debug, Copy, Clone, PartialEq, Eq, Structural)]
pub struct MySqlTimeError {
    micros: i64,
}

impl MySqlTimeError {
    /// The error for the rejected duration `micros`.
    pub(crate) fn of(micros: i64) -> (r: MySqlTimeError)
        ensures
            r.micros() == micros,
    {
        MySqlTimeError { micros }
    }

    /// Returns the rejected signed microsecond duration.
    #[verifier::when_used_as_spec(spec_micros)]
    pub fn micros(self) -> (r: i64)
        ensures
            r == self.spec_micros(),
    {
        self.micros
    }

    /// The rejected signed microsecond duration.
    pub closed spec fn spec_micros(self) -> i64 {
        self.micros
    }

    /// Describes the error.
    pub fn message(&self) -> (r: String)
        ensures
            r@ == "mysql time duration is out of range: "@ + signed_decimal(self.micros() as int)
                + " microseconds"@,
    {
        let mut v: Vec<char> = Vec::new();
        push_str_chars(&mut v, "mysql time duration is out of range: ");
        push_signed_decimal(&mut v, self.micros);
        push_str_chars(&mut v, " microseconds");
        string_from_chars(&v)
    }
}

/// An error returned when SQL Server TIME ticks are outside one day.
#[derive(Debug, Copy, Clone, PartialEq, Eq, Structural)]
pub struct SqlServerTimeError {
    ticks: i64,
}

impl SqlServerTimeError {
    /// The error for the rejected tick count `ticks`.
    pub(crate) fn of(ticks: i64) -> (r: SqlServerTimeError)
        ensures
            r.ticks() == ticks,
    {
        SqlServerTimeError { ticks }
    }

    /// Returns the invalid 100-nanosecond tick value.
    #[verifier::when_used_as_spec(spec_ticks)]
    pub fn ticks(self) -> (r: i64)
        ensures
            r == self.spec_ticks(),
    {
        self.ticks
    }

    /// The invalid 100-nanosecond tick value.
    pub closed spec fn spec_ticks(self) -> i64 {
        self.ticks
    }

    /// Describes the error.
    pub fn message(&self) -> (r: String)
        ensures
            r@ == "invalid SQL Server time ticks: "@ + signed_decimal(self.ticks() as int),
    {
        let mut v: Vec<char> = Vec::new();
        push_str_chars(&mut v, "invalid SQL Server time ticks: ");
        push_signed_decimal(&mut v, self.ticks);
        string_from_chars(&v)
    }
}

/// Error returned when a value is outside the MySQL `YEAR` bounds.
#[derive(Debug, Copy, Clone, PartialEq, Eq, Structural)]
pub struct YearOutOfRange {
    value: i32,
}

impl YearOutOfRange {
    /// The error for the rejected year `value`.
    pub(crate) fn of(value: i32) -> (r: YearOutOfRange)
        ensures
            r.value() == value,
    {
        YearOutOfRange { value }
    }

    /// Returns the rejected value.
    #[verifier::when_used_as_spec(spec_value)]
    pub fn value(self) -> (r: i32)
        ensures
            r == self.spec_value(),
    {
        self.value
    }

    /// The rejected value.
    pub closed spec fn spec_value(self) -> i32 {
        self.value
    }

    /// Describes the error.
    pub fn message(&self) -> (r: String)
        ensures
            r@ == "year value "@ + signed_decimal(self.value() as int)
                + " is outside the supported range 1901..=2155"@,
    {
        let mut v: Vec<char> = Vec::new();
        push_str_chars(&mut v, "year value ");
        push_signed_decimal(&mut v, self.value as i64);
        push_str_chars(&mut v, " is outside the supported range 1901..=2155");
        string_from_chars(&v)
    }
}

/// The fixed-width types whose payload length is checked before decoding.
#[derive(Debug, Copy, Clone, PartialEq, Eq, Structural)]
pub enum FixedWidth {
    /// SQL Server `datetime2`.
    SqlServerDateTime2,
    /// SQL Server `time`.
    SqlServerTime,
    /// SQL Server `money`.
    SqlServerMoney,
    /// SQL Server `rowversion`.
    SqlServerRowVersion,
    /// SQL Server `tinyint`.
    SqlServerTinyInt,
    /// MySQL unsigned eight-byte integer.
    MySqlUint8,
}

/// The words that name a fixed-width type in a length error.
pub open spec fn fixed_width_label(w: FixedWidth) -> Seq<char> {
    match w {
        FixedWidth::SqlServerDateTime2 => "SQL Server datetime2"@,
        FixedWidth::SqlServerTime => "SQL Server time"@,
        FixedWidth::SqlServerMoney => "SQL Server money"@,
        FixedWidth::SqlServerRowVersion => "SQL Server rowversion"@,
        FixedWidth::SqlServerTinyInt => "SQL Server tinyint"@,
        FixedWidth::MySqlUint8 => "mysql uint8"@,
    }
}

impl FixedWidth {
    /// The words that name this type in a length error.
    pub fn label(self) -> (r: &'static str)
        ensures
            r@ == fixed_width_label(self),
    {
        match self {
            FixedWidth::SqlServerDateTime2 => "SQL Server datetime2",
            FixedWidth::SqlServerTime => "SQL Server time",
            FixedWidth::SqlServerMoney => "SQL Server money",
            FixedWidth::SqlServerRowVersion => "SQL Server rowversion",
            FixedWidth::SqlServerTinyInt => "SQL Server tinyint",
            FixedWidth::MySqlUint8 => "mysql uint8",
        }
    }
}

/// The ways a binary NUMERIC value can be rejected.
#[derive(Debug, Copy, Clone, PartialEq, Eq, Structural)]
pub enum NumericError {
    /// The header is short or inconsistent with the digits that follow.
    InvalidValue,
    /// A NaN cannot be decoded as an integer.
    NanAsInteger,
    /// A NaN cannot be decoded as a decimal.
    NanAsDecimal,
    /// The sign word is none of the known ones.
    InvalidSign,
    /// A base-10000 digit is outside `0..10000`.
    InvalidDigit,
    /// The value has a non-zero fractional part.
    NotAnInteger,
    /// The value does not fit in an `i64`.
    OutOfRangeForI64,
    /// The weight cannot be represented.
    InvalidWeight,
    /// The scale cannot be represented.
    ScaleOutOfRange,
    /// The weight cannot be represented in sixteen bits.
    WeightOutOfRange,
    /// There are more digits than sixteen bits can count.
    TooManyDigits,
}

/// The message of a NUMERIC error.
pub open spec fn numeric_message(e: NumericError) -> Seq<char> {
    match e {
        NumericError::InvalidValue => "invalid NUMERIC value"@,
        NumericError::NanAsInteger => "NaN NUMERIC values cannot be decoded as i64"@,
        NumericError::NanAsDecimal => "NaN NUMERIC values are not supported for BigDecimal"@,
        NumericError::InvalidSign => "invalid NUMERIC sign"@,
        NumericError::InvalidDigit => "invalid NUMERIC digit"@,
        NumericError::NotAnInteger => "NUMERIC value is not an integer"@,
        NumericError::OutOfRangeForI64 => "NUMERIC value out of range for i64"@,
        NumericError::InvalidWeight => "invalid NUMERIC weight"@,
        NumericError::ScaleOutOfRange => "NUMERIC scale out of range"@,
        NumericError::WeightOutOfRange => "NUMERIC weight out of range"@,
        NumericError::TooManyDigits => "too many NUMERIC digits"@,
    }
}

impl NumericError {
    /// The text of the message.
    pub fn text(self) -> (r: &'static str)
        ensures
            r@ == numeric_message(self),
    {
        match self {
            NumericError::InvalidValue => "invalid NUMERIC value",
            NumericError::NanAsInteger => "NaN NUMERIC values cannot be decoded as i64",
            NumericError::NanAsDecimal => "NaN NUMERIC values are not supported for BigDecimal",
            NumericError::InvalidSign => "invalid NUMERIC sign",
            NumericError::InvalidDigit => "invalid NUMERIC digit",
            NumericError::NotAnInteger => "NUMERIC value is not an integer",
            NumericError::OutOfRangeForI64 => "NUMERIC value out of range for i64",
            NumericError::InvalidWeight => "invalid NUMERIC weight",
            NumericError::ScaleOutOfRange => "NUMERIC scale out of range",
            NumericError::WeightOutOfRange => "NUMERIC weight out of range",
            NumericError::TooManyDigits => "too many NUMERIC digits",
        }
    }
}

/// An error of a conversion between a Rust value and its wire form.
#[derive(Debug)]
pub enum SqlError {
    /// A `NULL` value reached a type that cannot hold one.
    WasNull(WasNull),
    /// The Rust type cannot be converted to or from the database type.
    WrongType(WrongType),
    /// An Oracle interval could not be decoded.
    OracleInterval(OracleIntervalError),
    /// A MySQL BIT value could not be built or decoded.
    MySqlBit(MySqlBitError),
    /// A MySQL TIME duration is out of range.
    MySqlTime(MySqlTimeError),
    /// A SQL Server TIME tick count is out of range.
    SqlServerTime(SqlServerTimeError),
    /// A MySQL YEAR is out of range.
    YearOutOfRange(YearOutOfRange),
    /// A fixed-width payload has the wrong length.
    InvalidLength {
        /// The type that was decoded.
        width: FixedWidth,
        /// The actual payload length.
        actual: usize,
    },
    /// A one- or four-byte payload has the wrong length.
    InvalidBufferSize,
    /// A MySQL BIT payload sets bits past its significant ones.
    NonZeroUnusedBits,
    /// A binary NUMERIC value was rejected.
    Numeric(NumericError),
    /// A length does not fit in the 32 bits the protocol gives it.
    ValueTooLarge,
    /// A point in time lies outside what a timestamp or the platform's
    /// `SystemTime` can hold.
    TimestampOutOfRange,
    /// An array value was read or written as a type that is not an array.
    ExpectedArray,
    /// An array value has more than one dimension.
    TooManyDimensions,
    /// An array value holds fewer elements than the fixed-size array it is
    /// read into.
    TooFewElements {
        /// The length of the fixed-size array.
        expected: usize,
        /// The number of elements the value holds.
        got: usize,
    },
    /// An array value holds more elements than the fixed-size array it is
    /// read into.
    ExcessElements {
        /// The length of the fixed-size array.
        expected: usize,
    },
    /// A statement was given another number of parameters than it takes.
    Parameters {
        /// The number of parameters given.
        given: usize,
        /// The number of parameters the statement takes.
        expected: usize,
    },
    /// The protocol library rejected a payload, with its message.
    Protocol(String),
}

/// The message of an error.
pub open spec fn sql_error_message(e: SqlError) -> Seq<char> {
    match e {
        SqlError::WasNull(_) => "a Postgres value was `NULL`"@,
        SqlError::WrongType(w) =>
            "cannot convert between the Rust type `"@ + w.rust_type()
                + "` and the Postgres type `"@ + display_name(w.postgres_type()) + "`"@,
        SqlError::OracleInterval(e) => oracle_interval_message(e),
        SqlError::MySqlBit(e) => mysql_bit_message(e),
        SqlError::MySqlTime(e) =>
            "mysql time duration is out of range: "@ + signed_decimal(e.micros() as int)
                + " microseconds"@,
        SqlError::SqlServerTime(e) =>
            "invalid SQL Server time ticks: "@ + signed_decimal(e.ticks() as int),
        SqlError::YearOutOfRange(e) =>
            "year value "@ + signed_decimal(e.value() as int)
                + " is outside the supported range 1901..=2155"@,
        SqlError::InvalidLength { width, actual } =>
            "invalid "@ + fixed_width_label(width) + " length: "@ + decimal(actual as nat),
        SqlError::InvalidBufferSize => "invalid buffer size"@,
        SqlError::NonZeroUnusedBits => "mysql bit payload has non-zero unused bits"@,
        SqlError::Numeric(e) => numeric_message(e),
        SqlError::ValueTooLarge => "value too large to transmit"@,
        SqlError::TimestampOutOfRange => "timestamp out of range"@,
        SqlError::ExpectedArray => "expected array type"@,
        SqlError::TooManyDimensions => "array contains too many dimensions"@,
        SqlError::TooFewElements { expected, got } =>
            "too few elements in array (expected "@ + decimal(expected as nat) + ", got "@
                + decimal(got as nat) + ")"@,
        SqlError::ExcessElements { expected } =>
            "excess elements in array (expected "@ + decimal(expected as nat)
                + ", got more than that)"@,
        SqlError::Parameters { given, expected } =>
            "expected "@ + decimal(expected as nat) + " parameters but got "@ + decimal(given as nat),
        SqlError::Protocol(m) => m@,
    }
}

impl SqlError {
    /// Describes the error.
    pub fn message(&self) -> (r: String)
        ensures
            r@ == sql_error_message(*self),
    {
        match self {
            SqlError::WasNull(_) => "a Postgres value was `NULL`".to_owned(),
            SqlError::WrongType(w) => w.message(),
            SqlError::OracleInterval(e) => e.message(),
            SqlError::MySqlBit(e) => e.message(),
            SqlError::MySqlTime(e) => e.message(),
            SqlError::SqlServerTime(e) => e.message(),
            SqlError::YearOutOfRange(e) => e.message(),
            SqlError::InvalidLength { width, actual } => {
                let mut v: Vec<char> = Vec::new();
                push_str_chars(&mut v, "invalid ");
                push_str_chars(&mut v, width.label());
                push_str_chars(&mut v, " length: ");
                push_decimal(&mut v, *actual as u64);
                string_from_chars(&v)
            },
            SqlError::InvalidBufferSize => "invalid buffer size".to_owned(),
            SqlError::NonZeroUnusedBits => "mysql bit payload has non-zero unused bits".to_owned(),
            SqlError::Numeric(e) => e.text().to_owned(),
            SqlError::ValueTooLarge => "value too large to transmit".to_owned(),
            SqlError::TimestampOutOfRange => "timestamp out of range".to_owned(),
            SqlError::ExpectedArray => "expected array type".to_owned(),
            SqlError::TooManyDimensions => "array contains too many dimensions".to_owned(),
            SqlError::TooFewElements { expected, got } => {
                let mut v: Vec<char> = Vec::new();
                push_str_chars(&mut v, "too few elements in array (expected ");
                push_decimal(&mut v, *expected as u64);
                push_str_chars(&mut v, ", got ");
                push_decimal(&mut v, *got as u64);
                push_str_chars(&mut v, ")");
                string_from_chars(&v)
            },
            SqlError::ExcessElements { expected } => {
                let mut v: Vec<char> = Vec::new();
                push_str_chars(&mut v, "excess elements in array (expected ");
                push_decimal(&mut v, *expected as u64);
                push_str_chars(&mut v, ", got more than that)");
                string_from_chars(&v)
            },
            SqlError::Parameters { given, expected } => {
                let mut v: Vec<char> = Vec::new();
                push_str_chars(&mut v, "expected ");
                push_decimal(&mut v, *expected as u64);
                push_str_chars(&mut v, " parameters but got ");
                push_decimal(&mut v, *given as u64);
                string_from_chars(&v)
            },
            SqlError::Protocol(m) => m.clone(),
        }
    }
}

} // verus!
