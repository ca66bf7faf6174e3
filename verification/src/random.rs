//! A seedable source of uniformly distributed integers.
//!
//! The generator keeps a `rand::rngs::StdRng`. What a draw returns, and the
//! state in which it leaves the generator, are functions of the state before
//! the draw and of the request. They are named here, not computed: the
//! contracts say that equal states answer equal requests alike.

use rand::rngs::StdRng;
use rand::Rng;
use rand::SeedableRng;
use vstd::prelude::*;

verus! {

/// `rand::rngs::StdRng`, carried as an opaque value.
#[verifier::external_type_specification]
#[verifier::external_body]
pub struct ExStdRng(rand::rngs::StdRng);

/// The integer types that can be sampled. The pointer-sized types are left
/// out: what is drawn for them depends on the machine's word size.
#[derive(Clone, Copy, Debug, PartialEq, Eq, Hash, Structural)]
pub enum SampleType {
    I32,
    U32,
    I64,
    U64,
}

/// Why a range request was refused.
#[derive(Clone, Copy, Debug, PartialEq, Eq, Hash, Structural)]
pub enum RangeError {
    /// The lower bound is not below the upper bound.
    InvalidRange,
}

/// The state that `StdRng::seed_from_u64` builds from `seed`.
pub uninterp spec fn seeded_state(seed: u64) -> StdRng;

/// What `Rng::gen_range(low..high)` does at integer type `ty` in state
/// `state`: the value drawn and the state left behind.
pub uninterp spec fn range_draw(state: StdRng, ty: SampleType, low: int, high: int) -> (int, StdRng);

/// What `Rng::gen()` does at integer type `ty` in state `state`: the value
/// drawn and the state left behind.
pub uninterp spec fn full_draw(state: StdRng, ty: SampleType) -> (int, StdRng);

/// `StdRng::from_entropy`: a generator seeded by the operating system.
/// Nothing is known of its state. The call panics if the operating system
/// provides no entropy.
#[verifier::external_body]
fn entropy_rng() -> StdRng {
    StdRng::from_entropy()
}

/// `StdRng::seed_from_u64`: the state depends on the seed alone.
#[verifier::external_body]
fn seeded_rng(seed: u64) -> (rng: StdRng)
    ensures
        rng == seeded_state(seed),
{
    StdRng::seed_from_u64(seed)
}

/// `Rng::gen_range(low..high)` at `i32`. The call panics on an empty range,
/// which `requires` excludes. The value lies in `[low, high)`; value and next
/// state are those named by `range_draw`.
#[verifier::external_body]
fn gen_range_i32(rng: &mut StdRng, low: i32, high: i32) -> (value: i32)
    requires
        low < high,
    ensures
        low <= value < high,
        (value as int, *final(rng)) == range_draw(*old(rng), SampleType::I32, low as int, high as int),
{
    rng.gen_range(low..high)
}

/// `Rng::gen_range(low..high)` at `u32`, as for `i32`.
#[verifier::external_body]
fn gen_range_u32(rng: &mut StdRng, low: u32, high: u32) -> (value: u32)
    requires
        low < high,
    ensures
        low <= value < high,
        (value as int, *final(rng)) == range_draw(*old(rng), SampleType::U32, low as int, high as int),
{
    rng.gen_range(low..high)
}

/// `Rng::gen_range(low..high)` at `i64`, as for `i32`.
#[verifier::external_body]
fn gen_range_i64(rng: &mut StdRng, low: i64, high: i64) -> (value: i64)
    requires
        low < high,
    ensures
        low <= value < high,
        (value as int, *final(rng)) == range_draw(*old(rng), SampleType::I64, low as int, high as int),
{
    rng.gen_range(low..high)
}

/// `Rng::gen_range(low..high)` at `u64`, as for `i32`.
#[verifier::external_body]
fn gen_range_u64(rng: &mut StdRng, low: u64, high: u64) -> (value: u64)
    requires
        low < high,
    ensures
        low <= value < high,
        (value as int, *final(rng)) == range_draw(*old(rng), SampleType::U64, low as int, high as int),
{
    rng.gen_range(low..high)
}

/// `Rng::gen()` at `i32`: any value of the type may come; value and next
/// state are those named by `full_draw`.
#[verifier::external_body]
fn gen_i32(rng: &mut StdRng) -> (value: i32)
    ensures
        (value as int, *final(rng)) == full_draw(*old(rng), SampleType::I32),
{
    rng.gen()
}

/// `Rng::gen()` at `u32`, as for `i32`.
#[verifier::external_body]
fn gen_u32(rng: &mut StdRng) -> (value: u32)
    ensures
        (value as int, *final(rng)) == full_draw(*old(rng), SampleType::U32),
{
    rng.gen()
}

/// `Rng::gen()` at `i64`, as for `i32`.
#[verifier::external_body]
fn gen_i64(rng: &mut StdRng) -> (value: i64)
    ensures
        (value as int, *final(rng)) == full_draw(*old(rng), SampleType::I64),
{
    rng.gen()
}

/// `Rng::gen()` at `u64`, as for `i32`.
#[verifier::external_body]
fn gen_u64(rng: &mut StdRng) -> (value: u64)
    ensures
        (value as int, *final(rng)) == full_draw(*old(rng), SampleType::U64),
{
    rng.gen()
}

/// An integer type from which the generator can draw.
pub trait Sample: Sized + Copy {
    /// Which of the supported types this is.
    spec fn sample_type() -> SampleType;

    /// The integer that a value of the type stands for.
    spec fn numeric(self) -> int;

    /// Whether `self` is strictly below `other`.
    fn below(self, other: Self) -> (is_below: bool)
        ensures
            is_below == (self.numeric() < other.numeric()),
    ;

    /// Draws from `[low, high)`.
    fn draw_range(rng: &mut StdRng, low: Self, high: Self) -> (value: Self)
        requires
            low.numeric() < high.numeric(),
        ensures
            low.numeric() <= value.numeric() < high.numeric(),
            (value.numeric(), *final(rng)) == range_draw(
                *old(rng),
                Self::sample_type(),
                low.numeric(),
                high.numeric(),
            ),
    ;

    /// Draws from the whole type.
    fn draw_full(rng: &mut StdRng) -> (value: Self)
        ensures
            (value.numeric(), *final(rng)) == full_draw(*old(rng), Self::sample_type()),
    ;
}

impl Sample for i32 {
    open spec fn sample_type() -> SampleType {
        SampleType::I32
    }

    open spec fn numeric(self) -> int {
        self as int
    }

    fn below(self, other: Self) -> (is_below: bool) {
        self < other
    }

    fn draw_range(rng: &mut StdRng, low: Self, high: Self) -> (value: Self) {
        gen_range_i32(rng, low, high)
    }

    fn draw_full(rng: &mut StdRng) -> (value: Self) {
        gen_i32(rng)
    }
}

impl Sample for u32 {
    open spec fn sample_type() -> SampleType {
        SampleType::U32
    }

    open spec fn numeric(self) -> int {
        self as int
    }

    fn below(self, other: Self) -> (is_below: bool) {
        self < other
    }

    fn draw_range(rng: &mut StdRng, low: Self, high: Self) -> (value: Self) {
        gen_range_u32(rng, low, high)
    }

    fn draw_full(rng: &mut StdRng) -> (value: Self) {
        gen_u32(rng)
    }
}

impl Sample for i64 {
    open spec fn sample_type() -> SampleType {
        SampleType::I64
    }

    open spec fn numeric(self) -> int {
        self as int
    }

    fn below(self, other: Self) -> (is_below: bool) {
        self < other
    }

    fn draw_range(rng: &mut StdRng, low: Self, high: Self) -> (value: Self) {
        gen_range_i64(rng, low, high)
    }

    fn draw_full(rng: &mut StdRng) -> (value: Self) {
        gen_i64(rng)
    }
}

impl Sample for u64 {
    open spec fn sample_type() -> SampleType {
        SampleType::U64
    }

    open spec fn numeric(self) -> int {
        self as int
    }

    fn below(self, other: Self) -> (is_below: bool) {
        self < other
    }

    fn draw_range(rng: &mut StdRng, low: Self, high: Self) -> (value: Self) {
        gen_range_u64(rng, low, high)
    }

    fn draw_full(rng: &mut StdRng) -> (value: Self) {
        gen_u64(rng)
    }
}

/// A random number generator, seeded from entropy or from a 64-bit seed.
pub struct RandomNumberGenerator {
    rng: StdRng,
}

impl View for RandomNumberGenerator {
    type V = StdRng;

    /// The generator's state: all that its future draws depend on.
    closed spec fn view(&self) -> StdRng {
        self.rng
    }
}

impl RandomNumberGenerator {
    /// A generator seeded from entropy: its draws cannot be reproduced.
    pub fn new() -> Self {
        Self { rng: entropy_rng() }
    }

    /// A generator whose state, and so every draw, depends on `seed` alone.
    pub fn seeded(seed: u64) -> (generator: Self)
        ensures
            generator@ == seeded_state(seed),
    {
        Self { rng: seeded_rng(seed) }
    }

    /// Draws a value from `[low, high)`. An empty range is refused and
    /// leaves the generator as it was.
    pub fn range<T: Sample>(&mut self, low: T, high: T) -> (drawn: Result<T, RangeError>)
        ensures
            low.numeric() >= high.numeric() ==> (drawn == Err::<T, RangeError>(
                RangeError::InvalidRange,
            ) && final(self)@ == old(self)@),
            low.numeric() < high.numeric() ==> (drawn matches Ok(value) && low.numeric()
                <= value.numeric() < high.numeric() && (value.numeric(), final(self)@)
                == range_draw(old(self)@, T::sample_type(), low.numeric(), high.numeric())),
    {
        if low.below(high) {
            Ok(T::draw_range(&mut self.rng, low, high))
        } else {
            Err(RangeError::InvalidRange)
        }
    }

    /// Draws a value from the whole of `T`.
    pub fn next<T: Sample>(&mut self) -> (value: T)
        ensures
            (value.numeric(), final(self)@) == full_draw(old(self)@, T::sample_type()),
    {
        T::draw_full(&mut self.rng)
    }
}

/// A request made of a generator.
pub enum Request {
    /// A value of type `ty` from `[low, high)`.
    Range { ty: SampleType, low: int, high: int },
    /// A value from the whole of type `ty`.
    Full { ty: SampleType },
}

/// How a generator in `state` answers `request`: the value it returns, or
/// none where it refuses an empty range, and the state it is left in.
pub open spec fn answer(state: StdRng, request: Request) -> (Option<int>, StdRng) {
    match request {
        Request::Range { ty, low, high } => {
            if low < high {
                let drawn = range_draw(state, ty, low, high);
                (Some(drawn.0), drawn.1)
            } else {
                (None, state)
            }
        },
        Request::Full { ty } => {
            let drawn = full_draw(state, ty);
            (Some(drawn.0), drawn.1)
        },
    }
}

/// The values with which a generator that starts in `state` answers
/// `requests`, made one after the other.
pub open spec fn answers(state: StdRng, requests: Seq<Request>) -> Seq<Option<int>>
    decreases requests.len(),
{
    if requests.len() == 0 {
        Seq::empty()
    } else {
        seq![answer(state, requests.first()).0] + answers(
            answer(state, requests.first()).1,
            requests.drop_first(),
        )
    }
}

/// Two generators made from the same seed answer the same requests with the
/// same values, however many requests are made.
pub proof fn lemma_same_seed_same_answers(
    first: RandomNumberGenerator,
    second: RandomNumberGenerator,
    seed: u64,
    requests: Seq<Request>,
)
    requires
        first@ == seeded_state(seed),
        second@ == seeded_state(seed),
    ensures
        answers(first@, requests) == answers(second@, requests),
{
}

impl Default for RandomNumberGenerator {
    fn default() -> Self {
        Self::new()
    }
}

} // verus!
