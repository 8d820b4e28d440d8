//! Log events of the board are not relayed.

use vstd::prelude::*;
use crate::effects::Effect;
use crate::models::{Fields, HandlerTrait};

verus! {

/// Receives the board's log events and relays none of them.
pub struct LoggingHandler {}

impl HandlerTrait for LoggingHandler {
    type Session = ();

    fn create(&self, _fields: Fields) -> (r: ((), Effect))
        ensures
            r.1 is Nothing,
    {
        ((), Effect::Nothing)
    }

    fn edit(&self, _fields: Fields) -> (r: ((), Effect))
        ensures
            r.1 is Nothing,
    {
        ((), Effect::Nothing)
    }

    fn delete(&self, _fields: Fields) -> (r: ((), Effect))
        ensures
            r.1 is Nothing,
    {
        ((), Effect::Nothing)
    }
}

} // verus!
