//! Domain model: identifiers, range-validated values, and the entities of the
//! document archive (faculties, majors, subjects, teachers, documents).
use vstd::prelude::*;

use crate::text::{concat, decimal_string, int_decimal};

pub mod document;
pub mod faculty;
pub mod major;
pub mod subject;
pub mod teacher;

verus! {

// ---------------------------------------------------------------------------
// Identifiers
// ---------------------------------------------------------------------------

/// An identifier of an entity of kind `T`: a 128-bit UUID value (big-endian,
/// as `uuid::Uuid::as_u128` gives it), tagged with the kind of entity it names.
#[derive(Debug)]
pub struct Id<T> {
    id: u128,
    _phantom: core::marker::PhantomData<T>,
}

impl<T> Id<T> {
    /// The UUID value of this identifier.
    pub closed spec fn value(&self) -> u128 {
        self.id
    }

    pub fn new(id: u128) -> (res: Self)
        ensures
            res.value() == id,
    {
        Id { id, _phantom: core::marker::PhantomData }
    }

    pub fn id(&self) -> (res: u128)
        ensures
            res == self.value(),
    {
        self.id
    }

    /// A new identifier with a random (version 4) UUID.
    pub fn generate() -> (res: Self)
        ensures
            is_uuid_v4(res.value()),
    {
        Id::new(random_uuid_v4())
    }

    /// The canonical hyphenated text of the UUID (`8-4-4-4-12` lower-case
    /// hex digits).
    pub fn hyphenated(&self) -> (res: String)
        ensures
            res@ == uuid_hyphenated_text(self.value()),
    {
        uuid_hyphenated(self.id)
    }

    /// The simple text of the UUID (32 lower-case hex digits).
    pub fn simple(&self) -> (res: String)
        ensures
            res@ == uuid_simple_text(self.value()),
    {
        uuid_simple(self.id)
    }
}

impl<T> Clone for Id<T> {
    fn clone(&self) -> (res: Self)
        ensures
            res == *self,
    {
        Id { id: self.id, _phantom: core::marker::PhantomData }
    }
}

impl<T> Copy for Id<T> {}

impl<T> PartialEq for Id<T> {
    fn eq(&self, other: &Self) -> (res: bool) {
        self.id == other.id
    }
}

impl<T> vstd::std_specs::cmp::PartialEqSpecImpl for Id<T> {
    open spec fn obeys_eq_spec() -> bool {
        true
    }

    open spec fn eq_spec(&self, other: &Self) -> bool {
        self.value() == other.value()
    }
}

impl<T> Eq for Id<T> {}

/// Two identifiers with the same UUID value are the same identifier.
pub proof fn lemma_id_value_injective<T>(a: Id<T>, b: Id<T>)
    requires
        a.value() == b.value(),
    ensures
        a == b,
{
}

/// A version-4 (random) UUID of the RFC 4122 variant: the version nibble is 4
/// and the two variant bits are `10`.
pub open spec fn is_uuid_v4(u: u128) -> bool {
    &&& (u >> 76u128) & 0xfu128 == 4u128
    &&& (u >> 62u128) & 0x3u128 == 2u128
}

/// Lower-case hex digit for `d`, for `0 <= d < 16`.
pub open spec fn hex_char(d: int) -> char {
    if d < 10 {
        (48 + d) as char
    } else {
        (87 + d) as char
    }
}

/// The lowest `width` hex digits of `n`, most significant first.
pub open spec fn hex_digits(n: nat, width: nat) -> Seq<char>
    decreases width,
{
    if width == 0 {
        Seq::empty()
    } else {
        hex_digits(n / 16, (width - 1) as nat).push(hex_char((n % 16) as int))
    }
}

/// The simple form of a UUID: its 32 hex digits.
pub open spec fn uuid_simple_text(u: u128) -> Seq<char> {
    hex_digits(u as nat, 32)
}

/// The hyphenated form of a UUID: its hex digits grouped `8-4-4-4-12`.
pub open spec fn uuid_hyphenated_text(u: u128) -> Seq<char> {
    let h = uuid_simple_text(u);
    h.subrange(0, 8) + seq!['-'] + h.subrange(8, 12) + seq!['-'] + h.subrange(12, 16)
        + seq!['-'] + h.subrange(16, 20) + seq!['-'] + h.subrange(20, 32)
}

/// A lower-case hex digit: `0` to `9` or `a` to `f`.
pub open spec fn is_hex_digit_char(c: char) -> bool {
    (48 <= c as int <= 57) || (97 <= c as int <= 102)
}

/// `hex_digits(n, width)` has `width` characters, each a hex digit.
pub proof fn lemma_hex_digits(n: nat, width: nat)
    ensures
        hex_digits(n, width).len() == width,
        forall|k: int| 0 <= k < width ==> is_hex_digit_char(#[trigger] hex_digits(n, width)[k]),
    decreases width,
{
    if width > 0 {
        lemma_hex_digits(n / 16, (width - 1) as nat);
        let d = (n % 16) as int;
        assert(is_hex_digit_char(hex_char(d)));
    }
}

/// The hyphenated text of a UUID has 36 characters and begins with a hex
/// digit.
pub proof fn lemma_uuid_hyphenated_text_shape(u: u128)
    ensures
        uuid_hyphenated_text(u).len() == 36,
        is_hex_digit_char(uuid_hyphenated_text(u)[0]),
{
    lemma_hex_digits(u as nat, 32);
    assert(uuid_hyphenated_text(u)[0] == uuid_simple_text(u)[0]);
}

/// Draws a random UUID with `uuid::Uuid::new_v4` and returns its 128-bit
/// value. The crate sets the version nibble to 4 and the variant bits to the
/// RFC 4122 variant, which is all the contract states; the other bits are
/// random. The crate panics when the operating system yields no random bytes;
/// no argument decides that, so no `requires` can rule it out.
#[verifier::external_body]
fn random_uuid_v4() -> (res: u128)
    ensures
        is_uuid_v4(res),
{
    uuid::Uuid::new_v4().as_u128()
}

/// Renders a UUID with `uuid::Uuid::simple` (through `Display`): 32
/// lower-case hex digits, most significant first. Trusted.
#[verifier::external_body]
fn uuid_simple(u: u128) -> (res: String)
    ensures
        res@ == uuid_simple_text(u),
{
    uuid::Uuid::from_u128(u).simple().to_string()
}

/// Renders a UUID with `uuid::Uuid::hyphenated` (through `Display`): the
/// lower-case hex digits grouped `8-4-4-4-12`. Trusted.
#[verifier::external_body]
fn uuid_hyphenated(u: u128) -> (res: String)
    ensures
        res@ == uuid_hyphenated_text(u),
{
    uuid::Uuid::from_u128(u).hyphenated().to_string()
}

// ---------------------------------------------------------------------------
// Range validation
// ---------------------------------------------------------------------------

/// The value that a range check rejected, with the bounds it was held to.
#[derive(Clone, Copy, Debug)]
pub struct RangeValidationError {
    pub actual: i64,
    pub expect_upper: Option<i64>,
    pub expect_lower: Option<i64>,
}

/// `value` lies within the optional inclusive bounds.
pub open spec fn within(value: int, lower: Option<i64>, upper: Option<i64>) -> bool {
    &&& (lower matches Some(l) ==> l <= value)
    &&& (upper matches Some(u) ==> value <= u)
}

/// Text of an optional bound: its decimal digits, or `None`.
pub open spec fn bound_text(b: Option<i64>) -> Seq<char> {
    match b {
        Some(v) => int_decimal(v as int),
        None => "None"@,
    }
}

/// The message of a range validation error.
pub open spec fn range_error_text(e: RangeValidationError) -> Seq<char> {
    "range validation error: expect: ("@ + bound_text(e.expect_lower) + ", "@ + bound_text(
        e.expect_upper,
    ) + "), actual: "@ + int_decimal(e.actual as int)
}

fn bound_string(b: Option<i64>) -> (res: String)
    ensures
        res@ == bound_text(b),
{
    match b {
        Some(v) => decimal_string(v),
        None => "None".to_owned(),
    }
}

impl RangeValidationError {
    /// `range validation error: expect: (<lower>, <upper>), actual: <actual>`,
    /// where a missing bound reads `None`.
    pub fn to_string(&self) -> (res: String)
        ensures
            res@ == range_error_text(*self),
    {
        let lower = bound_string(self.expect_lower);
        let upper = bound_string(self.expect_upper);
        let actual = decimal_string(self.actual);
        let s = concat("range validation error: expect: (", lower.as_str());
        let s = s.concat(", ");
        let s = s.concat(upper.as_str());
        let s = s.concat("), actual: ");
        s.concat(actual.as_str())
    }
}

/// Builds a value with `ctor` when `value` lies within `range` (lower, upper;
/// both inclusive, `None` for no bound), and reports the value and the bounds
/// otherwise.
fn construct_with_range_validation<T, F: FnOnce(i64) -> T>(
    ctor: F,
    value: i64,
    range: (Option<i64>, Option<i64>),
) -> (res: Result<T, RangeValidationError>)
    requires
        within(value as int, range.0, range.1) ==> call_requires(ctor, (value,)),
    ensures
        match res {
            Ok(t) => within(value as int, range.0, range.1) && call_ensures(ctor, (value,), t),
            Err(e) => {
                &&& !within(value as int, range.0, range.1)
                &&& e.actual == value
                &&& e.expect_upper == range.1
                &&& e.expect_lower == range.0
            },
        },
{
    let lower_ok = match range.0 {
        Some(l) => l <= value,
        None => true,
    };
    let upper_ok = match range.1 {
        Some(u) => value <= u,
        None => true,
    };
    if lower_ok && upper_ok {
        Ok(ctor(value))
    } else {
        Err(RangeValidationError { actual: value, expect_upper: range.1, expect_lower: range.0 })
    }
}

/// Lowest accepted year.
pub const YEAR_LOWER: i64 = 1949;
/// Lowest and highest accepted grade.
pub const GRADE_LOWER: i64 = 1;
pub const GRADE_UPPER: i64 = 9;
/// Lowest and highest accepted term.
pub const TERM_LOWER: i64 = 1;
pub const TERM_UPPER: i64 = 4;
/// Lowest accepted sequence number.
pub const NUM_LOWER: i64 = 1;

pub open spec fn valid_year(v: int) -> bool {
    YEAR_LOWER <= v
}

pub open spec fn valid_grade(v: int) -> bool {
    GRADE_LOWER <= v <= GRADE_UPPER
}

pub open spec fn valid_term(v: int) -> bool {
    TERM_LOWER <= v <= TERM_UPPER
}

pub open spec fn valid_num(v: int) -> bool {
    NUM_LOWER <= v
}

// ---------------------------------------------------------------------------
// Year
// ---------------------------------------------------------------------------

/// A year (1949 or later), tagged with the kind of entity it belongs to.
#[derive(Debug)]
pub struct Year<T>(i64, core::marker::PhantomData<T>);

impl<T> Year<T> {
    #[verifier::type_invariant]
    spec fn inv(self) -> bool {
        valid_year(self.0 as int)
    }

    pub closed spec fn value(&self) -> i64 {
        self.0
    }

    /// A year from a value already known to be accepted.
    pub(crate) fn from_valid(year: i64) -> (res: Self)
        requires
            valid_year(year as int),
        ensures
            res.value() == year,
    {
        Year(year, core::marker::PhantomData)
    }

    /// Accepts `year` when it is at least 1949.
    pub fn new(year: i64) -> (res: Result<Self, RangeValidationError>)
        ensures
            match res {
                Ok(y) => valid_year(year as int) && y.value() == year,
                Err(e) => {
                    &&& !valid_year(year as int)
                    &&& e.actual == year
                    &&& e.expect_lower == Some(YEAR_LOWER)
                    &&& e.expect_upper == None::<i64>
                },
            },
    {
        construct_with_range_validation(
            Self::from_valid,
            year,
            (Some(YEAR_LOWER), None),
        )
    }

    pub fn year(&self) -> (res: &i64)
        ensures
            *res == self.value(),
            valid_year(*res as int),
    {
        proof {
            use_type_invariant(self);
        }
        &self.0
    }
}

impl<T> Clone for Year<T> {
    fn clone(&self) -> (res: Self)
        ensures
            res == *self,
    {
        proof {
            use_type_invariant(self);
        }
        Year(self.0, core::marker::PhantomData)
    }
}

impl<T> Copy for Year<T> {}

impl<T> PartialEq for Year<T> {
    fn eq(&self, other: &Self) -> (res: bool) {
        self.0 == other.0
    }
}

impl<T> vstd::std_specs::cmp::PartialEqSpecImpl for Year<T> {
    open spec fn obeys_eq_spec() -> bool {
        true
    }

    open spec fn eq_spec(&self, other: &Self) -> bool {
        self.value() == other.value()
    }
}

impl<T> Eq for Year<T> {}

impl<T> PartialOrd for Year<T> {
    fn partial_cmp(&self, other: &Self) -> (res: Option<core::cmp::Ordering>) {
        self.0.partial_cmp(&other.0)
    }
}

impl<T> vstd::std_specs::cmp::PartialOrdSpecImpl for Year<T> {
    open spec fn obeys_partial_cmp_spec() -> bool {
        true
    }

    open spec fn partial_cmp_spec(&self, other: &Self) -> Option<core::cmp::Ordering> {
        if self.value() < other.value() {
            Some(core::cmp::Ordering::Less)
        } else if self.value() > other.value() {
            Some(core::cmp::Ordering::Greater)
        } else {
            Some(core::cmp::Ordering::Equal)
        }
    }
}

// ---------------------------------------------------------------------------
// Grade
// ---------------------------------------------------------------------------

/// A grade (school year, 1 to 9), tagged with the kind of entity it belongs to.
#[derive(Debug)]
pub struct Grade<T>(i64, core::marker::PhantomData<T>);

impl<T> Grade<T> {
    #[verifier::type_invariant]
    spec fn inv(self) -> bool {
        valid_grade(self.0 as int)
    }

    pub closed spec fn value(&self) -> i64 {
        self.0
    }

    /// A grade from a value already known to be accepted.
    pub(crate) fn from_valid(grade: i64) -> (res: Self)
        requires
            valid_grade(grade as int),
        ensures
            res.value() == grade,
    {
        Grade(grade, core::marker::PhantomData)
    }

    /// Accepts `grade` when it lies in `1..=9`.
    pub fn new(grade: i64) -> (res: Result<Self, RangeValidationError>)
        ensures
            match res {
                Ok(g) => valid_grade(grade as int) && g.value() == grade,
                Err(e) => {
                    &&& !valid_grade(grade as int)
                    &&& e.actual == grade
                    &&& e.expect_lower == Some(GRADE_LOWER)
                    &&& e.expect_upper == Some(GRADE_UPPER)
                },
            },
    {
        construct_with_range_validation(
            Self::from_valid,
            grade,
            (Some(GRADE_LOWER), Some(GRADE_UPPER)),
        )
    }

    pub fn grade(&self) -> (res: &i64)
        ensures
            *res == self.value(),
            valid_grade(*res as int),
    {
        proof {
            use_type_invariant(self);
        }
        &self.0
    }
}

impl<T> Clone for Grade<T> {
    fn clone(&self) -> (res: Self)
        ensures
            res == *self,
    {
        proof {
            use_type_invariant(self);
        }
        Grade(self.0, core::marker::PhantomData)
    }
}

impl<T> Copy for Grade<T> {}

impl<T> PartialEq for Grade<T> {
    fn eq(&self, other: &Self) -> (res: bool) {
        self.0 == other.0
    }
}

impl<T> vstd::std_specs::cmp::PartialEqSpecImpl for Grade<T> {
    open spec fn obeys_eq_spec() -> bool {
        true
    }

    open spec fn eq_spec(&self, other: &Self) -> bool {
        self.value() == other.value()
    }
}

impl<T> Eq for Grade<T> {}

impl<T> PartialOrd for Grade<T> {
    fn partial_cmp(&self, other: &Self) -> (res: Option<core::cmp::Ordering>) {
        self.0.partial_cmp(&other.0)
    }
}

impl<T> vstd::std_specs::cmp::PartialOrdSpecImpl for Grade<T> {
    open spec fn obeys_partial_cmp_spec() -> bool {
        true
    }

    open spec fn partial_cmp_spec(&self, other: &Self) -> Option<core::cmp::Ordering> {
        if self.value() < other.value() {
            Some(core::cmp::Ordering::Less)
        } else if self.value() > other.value() {
            Some(core::cmp::Ordering::Greater)
        } else {
            Some(core::cmp::Ordering::Equal)
        }
    }
}

// ---------------------------------------------------------------------------
// Term
// ---------------------------------------------------------------------------

/// A term (quarter of the school year, 1 to 4), tagged with the kind of entity
/// it belongs to.
#[derive(Debug)]
pub struct Term<T>(i64, core::marker::PhantomData<T>);

impl<T> Term<T> {
    #[verifier::type_invariant]
    spec fn inv(self) -> bool {
        valid_term(self.0 as int)
    }

    pub closed spec fn value(&self) -> i64 {
        self.0
    }

    /// A term from a value already known to be accepted.
    pub(crate) fn from_valid(term: i64) -> (res: Self)
        requires
            valid_term(term as int),
        ensures
            res.value() == term,
    {
        Term(term, core::marker::PhantomData)
    }

    /// Accepts `term` when it lies in `1..=4`.
    pub fn new(term: i64) -> (res: Result<Self, RangeValidationError>)
        ensures
            match res {
                Ok(t) => valid_term(term as int) && t.value() == term,
                Err(e) => {
                    &&& !valid_term(term as int)
                    &&& e.actual == term
                    &&& e.expect_lower == Some(TERM_LOWER)
                    &&& e.expect_upper == Some(TERM_UPPER)
                },
            },
    {
        construct_with_range_validation(
            Self::from_valid,
            term,
            (Some(TERM_LOWER), Some(TERM_UPPER)),
        )
    }

    pub fn term(&self) -> (res: &i64)
        ensures
            *res == self.value(),
            valid_term(*res as int),
    {
        proof {
            use_type_invariant(self);
        }
        &self.0
    }
}

impl<T> Clone for Term<T> {
    fn clone(&self) -> (res: Self)
        ensures
            res == *self,
    {
        proof {
            use_type_invariant(self);
        }
        Term(self.0, core::marker::PhantomData)
    }
}

impl<T> Copy for Term<T> {}

impl<T> PartialEq for Term<T> {
    fn eq(&self, other: &Self) -> (res: bool) {
        self.0 == other.0
    }
}

impl<T> vstd::std_specs::cmp::PartialEqSpecImpl for Term<T> {
    open spec fn obeys_eq_spec() -> bool {
        true
    }

    open spec fn eq_spec(&self, other: &Self) -> bool {
        self.value() == other.value()
    }
}

impl<T> Eq for Term<T> {}

impl<T> PartialOrd for Term<T> {
    fn partial_cmp(&self, other: &Self) -> (res: Option<core::cmp::Ordering>) {
        self.0.partial_cmp(&other.0)
    }
}

impl<T> vstd::std_specs::cmp::PartialOrdSpecImpl for Term<T> {
    open spec fn obeys_partial_cmp_spec() -> bool {
        true
    }

    open spec fn partial_cmp_spec(&self, other: &Self) -> Option<core::cmp::Ordering> {
        if self.value() < other.value() {
            Some(core::cmp::Ordering::Less)
        } else if self.value() > other.value() {
            Some(core::cmp::Ordering::Greater)
        } else {
            Some(core::cmp::Ordering::Equal)
        }
    }
}

// ---------------------------------------------------------------------------
// Num
// ---------------------------------------------------------------------------

/// A sequence number (1 or more), tagged with the kind of entity it belongs to.
#[derive(Debug)]
pub struct Num<T>(i64, core::marker::PhantomData<T>);

impl<T> Num<T> {
    #[verifier::type_invariant]
    spec fn inv(self) -> bool {
        valid_num(self.0 as int)
    }

    pub closed spec fn value(&self) -> i64 {
        self.0
    }

    /// A sequence number from a value already known to be accepted.
    pub(crate) fn from_valid(num: i64) -> (res: Self)
        requires
            valid_num(num as int),
        ensures
            res.value() == num,
    {
        Num(num, core::marker::PhantomData)
    }

    /// Accepts `num` when it is at least 1.
    pub fn new(num: i64) -> (res: Result<Self, RangeValidationError>)
        ensures
            match res {
                Ok(n) => valid_num(num as int) && n.value() == num,
                Err(e) => {
                    &&& !valid_num(num as int)
                    &&& e.actual == num
                    &&& e.expect_lower == Some(NUM_LOWER)
                    &&& e.expect_upper == None::<i64>
                },
            },
    {
        construct_with_range_validation(
            Self::from_valid,
            num,
            (Some(NUM_LOWER), None),
        )
    }

    pub fn num(&self) -> (res: &i64)
        ensures
            *res == self.value(),
            valid_num(*res as int),
    {
        proof {
            use_type_invariant(self);
        }
        &self.0
    }
}

impl<T> Clone for Num<T> {
    fn clone(&self) -> (res: Self)
        ensures
            res == *self,
    {
        proof {
            use_type_invariant(self);
        }
        Num(self.0, core::marker::PhantomData)
    }
}

impl<T> Copy for Num<T> {}

impl<T> PartialEq for Num<T> {
    fn eq(&self, other: &Self) -> (res: bool) {
        self.0 == other.0
    }
}

impl<T> vstd::std_specs::cmp::PartialEqSpecImpl for Num<T> {
    open spec fn obeys_eq_spec() -> bool {
        true
    }

    open spec fn eq_spec(&self, other: &Self) -> bool {
        self.value() == other.value()
    }
}

impl<T> Eq for Num<T> {}

impl<T> PartialOrd for Num<T> {
    fn partial_cmp(&self, other: &Self) -> (res: Option<core::cmp::Ordering>) {
        self.0.partial_cmp(&other.0)
    }
}

impl<T> vstd::std_specs::cmp::PartialOrdSpecImpl for Num<T> {
    open spec fn obeys_partial_cmp_spec() -> bool {
        true
    }

    open spec fn partial_cmp_spec(&self, other: &Self) -> Option<core::cmp::Ordering> {
        if self.value() < other.value() {
            Some(core::cmp::Ordering::Less)
        } else if self.value() > other.value() {
            Some(core::cmp::Ordering::Greater)
        } else {
            Some(core::cmp::Ordering::Equal)
        }
    }
}

/// Error of a text that does not have the required format.
#[derive(Clone, Copy, Debug)]
pub struct FormatValidationError;

} // verus!
