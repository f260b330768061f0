//! Adding up the numbers in a text, one number to a line.

use vstd::prelude::*;
use vstd::string::*;

verus! {

/// Why the numbers of a file could not be added up.
#[derive(Debug, PartialEq, Eq)]
pub enum CliError {
    /// The file could not be read; with the code the system reported, if
    /// it reported one.
    Io(Option<i32>),
    /// A line is not a number; with the line.
    Parse(String),
}

/// The lines of a text: what stands between line feeds, without a carriage
/// return before the line feed, and without an empty last line.
pub uninterp spec fn lines_of(text: Seq<char>) -> Seq<Seq<char>>;

/// The number that a text is the decimal form of, if it is one and the
/// number fits 32 bits: digits, after an optional sign.
pub uninterp spec fn parsed_i32(text: Seq<char>) -> Option<i32>;

/// The texts of a list of strings.
pub open spec fn texts(lines: Seq<String>) -> Seq<Seq<char>> {
    Seq::new(lines.len(), |i: int| lines[i]@)
}

/// `str::lines` of the standard library, with each line copied into a
/// string of its own.
#[verifier::external_body]
fn lines(text: &str) -> (r: Vec<String>)
    ensures
        texts(r@) == lines_of(text@),
{
    text.lines().map(|line| line.to_string()).collect()
}

/// `str::parse::<i32>` of the standard library.
#[verifier::external_body]
fn parse_i32(text: &str) -> (r: Option<i32>)
    ensures
        r == parsed_i32(text@),
{
    text.parse::<i32>().ok()
}

/// The sum of 32-bit numbers as the machine adds them: wrapping around.
pub open spec fn wrapping_sum(numbers: Seq<i32>) -> i32
    decreases numbers.len(),
{
    if numbers.len() == 0 {
        0
    } else {
        vstd::wrapping::i32_specs::wrapping_add(
            wrapping_sum(numbers.drop_last()),
            numbers.last(),
        )
    }
}

/// The index of the first line that is not a number.
pub open spec fn first_bad_line(lines: Seq<Seq<char>>) -> Option<int>
    decreases lines.len(),
{
    if lines.len() == 0 {
        None
    } else {
        match first_bad_line(lines.drop_last()) {
            Some(i) => Some(i),
            None => if parsed_i32(lines.last()) is None {
                Some(lines.len() - 1)
            } else {
                None
            },
        }
    }
}

/// The numbers on the lines, where every line is one.
pub open spec fn numbers_of(lines: Seq<Seq<char>>) -> Seq<i32> {
    Seq::new(lines.len(), |i: int| parsed_i32(lines[i])->Some_0)
}

/// The sum of the numbers on `lines`, or the first line that is not a
/// number.
pub open spec fn sum_of(lines: Seq<Seq<char>>) -> Result<i32, Seq<char>> {
    match first_bad_line(lines) {
        Some(i) => Err(lines[i]),
        None => Ok(wrapping_sum(numbers_of(lines))),
    }
}

/// The sum of `numbers` as the machine adds them.
pub fn sum_numbers(numbers: &Vec<i32>) -> (sum: i32)
    ensures
        sum == wrapping_sum(numbers@),
{
    let mut sum: i32 = 0;
    let mut i: usize = 0;
    assert(numbers@.take(0) =~= Seq::<i32>::empty());
    while i < numbers.len()
        invariant
            i <= numbers@.len(),
            sum == wrapping_sum(numbers@.take(i as int)),
        decreases numbers.len() - i,
    {
        assert(numbers@.take(i + 1).drop_last() =~= numbers@.take(i as int));
        sum = sum.wrapping_add(numbers[i]);
        i = i + 1;
    }
    assert(numbers@.take(i as int) =~= numbers@);
    sum
}

/// The numbers on `lines`, or the first line that is not a number.
pub fn parse_lines(lines: &Vec<String>) -> (r: Result<Vec<i32>, CliError>)
    ensures
        match first_bad_line(texts(lines@)) {
            Some(i) => r matches Err(CliError::Parse(bad)) && bad@ == texts(lines@)[i],
            None => r matches Ok(numbers) && numbers@ == numbers_of(texts(lines@)),
        },
{
    let ghost all = texts(lines@);
    let mut numbers: Vec<i32> = Vec::new();
    let mut i: usize = 0;
    assert(all.take(0) =~= Seq::<Seq<char>>::empty());
    assert(numbers@ =~= numbers_of(all.take(0)));
    while i < lines.len()
        invariant
            i <= lines@.len(),
            all == texts(lines@),
            first_bad_line(all.take(i as int)) is None,
            numbers@ == numbers_of(all.take(i as int)),
        decreases lines.len() - i,
    {
        assert(all.take(i + 1).drop_last() =~= all.take(i as int));
        assert(all.take(i + 1).last() == lines@[i as int]@);
        match parse_i32(lines[i].as_str()) {
            Some(n) => {
                numbers.push(n);
                assert(numbers@ =~= numbers_of(all.take(i + 1)));
            },
            None => {
                proof {
                    assert(first_bad_line(all.take(i + 1)) == Some(i as int));
                    lemma_first_bad_line_stays(all, i + 1);
                }
                return Err(CliError::Parse(lines[i].clone()));
            },
        }
        i = i + 1;
    }
    assert(all.take(i as int) =~= all);
    Ok(numbers)
}

/// The sum of the numbers on `lines`, or the first line that is not a
/// number.
pub fn sum_lines(lines: &Vec<String>) -> (r: Result<i32, CliError>)
    ensures
        match sum_of(texts(lines@)) {
            Ok(sum) => r == Ok::<i32, CliError>(sum),
            Err(line) => r matches Err(CliError::Parse(bad)) && bad@ == line,
        },
{
    match parse_lines(lines) {
        Ok(numbers) => Ok(sum_numbers(&numbers)),
        Err(e) => Err(e),
    }
}

/// A bad line found among the first `n` lines is the first bad line of the
/// whole text.
pub proof fn lemma_first_bad_line_stays(lines: Seq<Seq<char>>, n: int)
    requires
        0 <= n <= lines.len(),
        first_bad_line(lines.take(n)) is Some,
    ensures
        first_bad_line(lines) == first_bad_line(lines.take(n)),
    decreases lines.len() - n,
{
    if n < lines.len() {
        assert(lines.take(n + 1).drop_last() =~= lines.take(n));
        lemma_first_bad_line_stays(lines, n + 1);
    } else {
        assert(lines.take(n) =~= lines);
    }
}

/// The sum of the numbers in a file, one to a line. `contents` is the text
/// of the file, or the code of the error if the file could not be read. The
/// first line that is not a number ends the sum with an error.
pub fn run(contents: Result<String, Option<i32>>) -> (r: Result<i32, CliError>)
    ensures
        match contents {
            Err(code) => r == Err::<i32, CliError>(CliError::Io(code)),
            Ok(text) => match sum_of(lines_of(text@)) {
                Ok(sum) => r == Ok::<i32, CliError>(sum),
                Err(line) => r matches Err(CliError::Parse(bad)) && bad@ == line,
            },
        },
{
    match contents {
        Err(code) => Err(CliError::Io(code)),
        Ok(text) => {
            let all = lines(text.as_str());
            sum_lines(&all)
        },
    }
}

} // verus!
