//! The decisions behind two console games: guessing a secret number and
//! remembering a growing digit sequence. Reading lines and printing stay in
//! the application; the rules are decided and proved here.

use vstd::prelude::*;

verus! {

/// Holds exactly when every character of `s` is an ASCII digit. The empty
/// sequence qualifies.
pub open spec fn all_digits(s: Seq<char>) -> bool {
    forall|i: int| 0 <= i < s.len() ==> '0' <= #[trigger] s[i] <= '9'
}

/// Relies on `regex::Regex::new` and `regex::Regex::is_match` with the
/// anchored pattern `^([0-9]*)$`, which matches exactly the strings made
/// entirely of ASCII digits, the empty string included. `Regex::new` cannot
/// fail on this fixed pattern.
#[verifier::external_body]
fn matches_numeric_pattern(s: &str) -> (r: bool)
    ensures
        r == all_digits(s@),
{
    let numbers_re = regex::Regex::new("^([0-9]*)$").unwrap();
    numbers_re.is_match(s)
}

/// True exactly when the player's line consists of ASCII digits only, the
/// empty line included.
pub fn is_numeric_input(s: &str) -> (r: bool)
    ensures
        r == all_digits(s@),
{
    matches_numeric_pattern(s)
}

/// Relies on `rand::thread_rng` and `rand::Rng::gen_range`: the result is
/// drawn from the half-open range `low..high`. `gen_range` panics on an empty
/// range, so the range is required to be non-empty; nothing more is assumed
/// of the draw.
#[verifier::external_body]
fn random_in_range(low: u32, high: u32) -> (r: u32)
    requires
        low < high,
    ensures
        low <= r < high,
{
    let mut generator = rand::thread_rng();
    rand::Rng::gen_range(&mut generator, low..high)
}

/// Draws the secret number for the guessing game, between 1 and 100.
pub fn draw_secret_number() -> (n: u32)
    ensures
        1 <= n <= 100,
{
    random_in_range(1, 101)
}

/// Draws the computer's next digit for the memory game.
pub fn draw_digit() -> (d: u8)
    ensures
        d < 10,
{
    let n = random_in_range(0, 10);
    n as u8
}

/// The outcome of comparing one guess with the secret number.
#[derive(Debug, PartialEq, Eq, Structural)]
pub enum GuessOutcome {
    TooSmall,
    TooBig,
    Correct,
}

/// Compares a guess with the secret number.
pub fn evaluate_guess(secret: u32, guess: u32) -> (o: GuessOutcome)
    ensures
        o == (if guess < secret {
            GuessOutcome::TooSmall
        } else if guess > secret {
            GuessOutcome::TooBig
        } else {
            GuessOutcome::Correct
        }),
{
    if guess < secret {
        GuessOutcome::TooSmall
    } else if guess > secret {
        GuessOutcome::TooBig
    } else {
        GuessOutcome::Correct
    }
}

/// True exactly when `a` is a prefix of `b`.
fn is_prefix(a: &Vec<u8>, b: &Vec<u8>) -> (r: bool)
    ensures
        r == a@.is_prefix_of(b@),
{
    if a.len() > b.len() {
        return false;
    }
    for i in 0..a.len()
        invariant
            a@.len() <= b@.len(),
            forall|j: int| 0 <= j < i ==> a@[j] == b@[j],
    {
        if a[i] != b[i] {
            assert(a@ != b@.subrange(0, a@.len() as int));
            return false;
        }
    }
    assert(a@ =~= b@.subrange(0, a@.len() as int));
    true
}

/// What one turn of the memory game leads to.
#[derive(Debug, PartialEq, Eq, Structural)]
pub enum TurnOutcome {
    /// The player repeated the sequence and added a digit; the computer
    /// appended one more.
    Extended,
    /// The player repeated the sequence but added nothing new.
    NeedNewNumber,
    /// The player misremembered; the game is over after `remembered`
    /// correctly recalled digits.
    Lost { remembered: usize },
}

/// The digit sequence built up over a game of remembering numbers.
pub struct MemoryGame {
    sequence: Vec<u8>,
}

impl View for MemoryGame {
    type V = Seq<u8>;

    closed spec fn view(&self) -> Seq<u8> {
        self.sequence@
    }
}

impl MemoryGame {
    /// Every remembered digit is a single decimal digit.
    pub open spec fn wf(&self) -> bool {
        forall|i: int| 0 <= i < self@.len() ==> self@[i] < 10
    }

    /// A new game with an empty sequence.
    pub fn new() -> (g: MemoryGame)
        ensures
            g@ == Seq::<u8>::empty(),
            g.wf(),
    {
        MemoryGame { sequence: Vec::new() }
    }

    /// The number of digits remembered so far.
    pub fn len(&self) -> (n: usize)
        ensures
            n == self@.len(),
    {
        self.sequence.len()
    }

    /// The digit at position `i` of the sequence.
    pub fn digit_at(&self, i: usize) -> (d: u8)
        requires
            i < self@.len(),
        ensures
            d == self@[i as int],
    {
        self.sequence[i]
    }

    /// One turn: the player must repeat the whole sequence and append at
    /// least one digit of their own, and the computer then appends
    /// `computer_digit`. A correct repetition without a new digit changes
    /// nothing; a wrong repetition ends the game, counting every digit but
    /// the computer's last as remembered.
    pub fn turn(&mut self, input: Vec<u8>, computer_digit: u8) -> (r: TurnOutcome)
        requires
            old(self).wf(),
            computer_digit < 10,
            forall|i: int| 0 <= i < input@.len() ==> input@[i] < 10,
        ensures
            final(self).wf(),
            ({
                let prev = old(self)@;
                if prev.len() == 0 || prev.is_prefix_of(input@) {
                    if input@.len() > prev.len() {
                        r == TurnOutcome::Extended && final(self)@ == input@.push(computer_digit)
                    } else {
                        r == TurnOutcome::NeedNewNumber && final(self)@ == prev
                    }
                } else {
                    r == (TurnOutcome::Lost { remembered: (prev.len() - 1) as usize })
                        && final(self)@ == prev
                }
            }),
    {
        let input_ok = if self.sequence.len() == 0 {
            true
        } else {
            is_prefix(&self.sequence, &input)
        };
        if input_ok {
            if input.len() > self.sequence.len() {
                self.sequence = input;
                self.sequence.push(computer_digit);
                TurnOutcome::Extended
            } else {
                TurnOutcome::NeedNewNumber
            }
        } else {
            TurnOutcome::Lost { remembered: self.sequence.len() - 1 }
        }
    }
}

} // verus!
