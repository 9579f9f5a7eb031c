//! The outbound message family: what a component reports to the application
//! after consuming an event. Kept separate from the property payload family
//! because the two channels evolve independently.

use crate::events::KeyEvent;
use vstd::prelude::*;

verus! {

/// A primitive result value carried alongside a message.
#[derive(PartialEq, Debug)]
pub enum Value {
    Bool(bool),
    Int(i64),
    Text(String),
    List(Vec<Value>),
    Entries(Vec<(String, Value)>),
}

impl Clone for Value {
    #[verifier::loop_isolation(false)]
    fn clone(&self) -> Self
        decreases *self,
    {
        match self {
            Value::Bool(x) => Value::Bool(*x),
            Value::Int(x) => Value::Int(*x),
            Value::Text(x) => Value::Text(x.clone()),
            Value::List(xs) => {
                let mut out: Vec<Value> = Vec::new();
                let n = xs.len();
                let mut i: usize = 0;
                while i < n
                    invariant
                        n == xs.len(),
                        0 <= i <= n,
                    decreases n - i,
                {
                    let element = &xs[i];
                    proof {
                        assert(decreases_to!(*self => *xs));
                        assert(decreases_to!(*xs => xs@[i as int]));
                    }
                    out.push(element.clone());
                    i = i + 1;
                }
                Value::List(out)
            },
            Value::Entries(xs) => {
                let mut out: Vec<(String, Value)> = Vec::new();
                let n = xs.len();
                let mut i: usize = 0;
                while i < n
                    invariant
                        n == xs.len(),
                        0 <= i <= n,
                    decreases n - i,
                {
                    let element = &xs[i];
                    proof {
                        assert(decreases_to!(*self => *xs));
                        assert(decreases_to!(*xs => xs@[i as int]));
                        assert(decreases_to!(xs@[i as int] => xs@[i as int].1));
                    }
                    let pair = (element.0.clone(), element.1.clone());
                    out.push(pair);
                    i = i + 1;
                }
                Value::Entries(out)
            },
        }
    }
}

/// Zero, one, or many values returned alongside a message.
#[derive(Clone, PartialEq, Debug)]
pub enum Payload {
    One(Value),
    Many(Vec<Value>),
    Empty,
}

/// A semantic event outcome a component can emit: its value changed, it was
/// submitted, or it saw a key it gives no special meaning to.
#[derive(Clone, PartialEq, Debug)]
pub enum Msg {
    Change(Payload),
    Submit(Payload),
    Key(KeyEvent),
}

} // verus!
