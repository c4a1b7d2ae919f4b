//! The amounts that the faucet dispenses to each address.

use vstd::prelude::*;

verus! {

/// One amount of one denomination.
#[derive(Clone, Debug)]
pub struct Value {
    pub denom: String,
    pub amount: u128,
}

/// A value as contracts see it: the denomination's characters and the amount.
pub struct ValueModel {
    pub denom: Seq<char>,
    pub amount: nat,
}

impl View for Value {
    type V = ValueModel;

    open spec fn view(&self) -> ValueModel {
        ValueModel { denom: self.denom@, amount: self.amount as nat }
    }
}

/// The models of `values`, in their order.
pub open spec fn values_model(values: Seq<Value>) -> Seq<ValueModel> {
    Seq::new(values.len(), |i: int| values[i]@)
}

/// Why a list of values cannot be dispensed.
#[derive(Clone, Copy, Debug, PartialEq, Eq, Structural)]
pub enum ValuesError {
    /// The list holds no value at all.
    Empty,
    /// The list holds a value whose amount is zero.
    ZeroAmount,
}

impl ValuesError {
    /// The message shown to the operator for this error.
    pub fn message(&self) -> (text: &'static str)
        ensures
            text@ == match *self {
                ValuesError::Empty => "at least one value must be provided"@,
                ValuesError::ZeroAmount => "all values must be non-zero"@,
            },
    {
        match self {
            ValuesError::Empty => "at least one value must be provided",
            ValuesError::ZeroAmount => "all values must be non-zero",
        }
    }
}

/// Every amount in `values` is strictly positive.
pub open spec fn all_positive(values: Seq<Value>) -> bool {
    forall|i: int| 0 <= i < values.len() ==> (#[trigger] values[i]).amount > 0
}

/// A list of values may be dispensed when it is non-empty and all-positive.
pub open spec fn dispensable(values: Seq<Value>) -> bool {
    values.len() > 0 && all_positive(values)
}

/// Checks once, before anything is served, that `values` can be dispensed.
///
/// An empty list is reported first; otherwise a zero amount anywhere in the
/// list is reported; otherwise the list is accepted.
pub fn validate_values(values: &Vec<Value>) -> (res: Result<(), ValuesError>)
    ensures
        res is Ok <==> dispensable(values@),
        res == Err::<(), ValuesError>(ValuesError::Empty) <==> values@.len() == 0,
        res == Err::<(), ValuesError>(ValuesError::ZeroAmount) <==> (values@.len() > 0
            && !all_positive(values@)),
{
    if values.len() == 0 {
        return Err(ValuesError::Empty);
    }
    let mut i: usize = 0;
    while i < values.len()
        invariant
            i <= values.len(),
            forall|j: int| 0 <= j < i ==> (#[trigger] values@[j]).amount > 0,
        decreases values.len() - i,
    {
        if values[i].amount == 0 {
            return Err(ValuesError::ZeroAmount);
        }
        i += 1;
    }
    Ok(())
}

/// Copies a list of values.
pub fn clone_values(values: &Vec<Value>) -> (copy: Vec<Value>)
    ensures
        values_model(copy@) == values_model(values@),
{
    let mut copy: Vec<Value> = Vec::new();
    let mut i: usize = 0;
    while i < values.len()
        invariant
            i <= values.len(),
            copy@.len() == i,
            forall|j: int| 0 <= j < i ==> (#[trigger] copy@[j])@ == values@[j]@,
        decreases values.len() - i,
    {
        copy.push(Value { denom: values[i].denom.clone(), amount: values[i].amount });
        i += 1;
    }
    assert(values_model(copy@) =~= values_model(values@));
    copy
}

} // verus!
