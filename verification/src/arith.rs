//! Integer arithmetic on `i32`, stated over mathematical integers.

use vstd::prelude::*;

verus! {

/// Whether a mathematical integer can be held in an `i32`.
pub open spec fn fits_i32(n: int) -> bool {
    i32::MIN <= n <= i32::MAX
}

/// The mathematical sum of a sequence of numbers, with 0 for the empty one.
pub open spec fn total(numbers: Seq<i32>) -> int
    decreases numbers.len(),
{
    if numbers.len() == 0 {
        0
    } else {
        total(numbers.drop_last()) + numbers.last()
    }
}

/// Whether the numbers can be added up from left to right in an `i32`:
/// the sum of every leading part fits.
pub open spec fn prefix_sums_fit(numbers: Seq<i32>) -> bool {
    forall|k: int| 0 <= k <= numbers.len() ==> fits_i32(#[trigger] total(numbers.take(k)))
}

/// Taking one more number adds it to the sum of those before it.
pub proof fn lemma_total_step(numbers: Seq<i32>, k: int)
    requires
        0 <= k < numbers.len(),
    ensures
        total(numbers.take(k + 1)) == total(numbers.take(k)) + numbers[k],
{
    assert(numbers.take(k + 1).drop_last() =~= numbers.take(k));
}

/// What is said of a sum: whether it lies above ten or not.
pub open spec fn sum_remark(sum: int) -> Seq<char> {
    if sum > 10 {
        "Sum is greater than 10"@
    } else {
        "Sum is less than or equal to 10"@
    }
}

/// Adds two numbers.
///
/// The caller shows that the mathematical sum fits in an `i32`; the result
/// is then exactly that sum.
pub fn calculate(a: i32, b: i32) -> (sum: i32)
    requires
        fits_i32(a + b),
    ensures
        sum == a + b,
{
    a + b
}

/// Adds the numbers up from left to right.
///
/// Returns the sum when every intermediate sum fits in an `i32`, and `None`
/// as soon as one does not, even where later numbers would bring the sum
/// back into range.
pub fn sum(numbers: &[i32]) -> (result: Option<i32>)
    ensures
        match result {
            Some(value) => prefix_sums_fit(numbers@) && value == total(numbers@),
            None => !prefix_sums_fit(numbers@),
        },
{
    let mut acc: i32 = 0;
    let mut i: usize = 0;
    while i < numbers.len()
        invariant
            i <= numbers.len(),
            acc == total(numbers@.take(i as int)),
            forall|k: int| 0 <= k <= i ==> fits_i32(#[trigger] total(numbers@.take(k))),
        decreases numbers.len() - i,
    {
        proof {
            lemma_total_step(numbers@, i as int);
        }
        match acc.checked_add(numbers[i]) {
            Some(next) => {
                acc = next;
            },
            None => {
                return None;
            },
        }
        i = i + 1;
    }
    assert(numbers@.take(i as int) =~= numbers@);
    Some(acc)
}

/// The remark that goes with a sum: one sentence for a sum above ten,
/// another for ten and everything below it.
pub fn describe_sum(sum: i32) -> (remark: &'static str)
    ensures
        remark@ == sum_remark(sum as int),
{
    if sum > 10 {
        "Sum is greater than 10"
    } else {
        "Sum is less than or equal to 10"
    }
}

} // verus!
