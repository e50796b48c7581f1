//! Taking the arguments of a call: the host is asked for as many values as
//! the extension wants, and each is copied into a cell the extension holds.
//! There is one routine for each number of values from one to five, since
//! the host's decoder cannot be called with a number that is only known
//! later.

use super::convert::ToPhpZval;
use super::types::{Zval, ZvalView};
use super::zval::undefined_cell;
use vstd::prelude::*;

verus! {

/// What the host knows of the call that is under way: the arguments that
/// the caller supplied, each as the host's decoder hands it out.
#[derive(Debug)]
pub struct ExecuteData {
    pub(crate) args: Vec<Zval>,
}

/// What ends up in the slot at a position: the argument at that position,
/// or an undefined cell where the caller supplied too few.
pub open spec fn parsed_slot(args: Seq<ZvalView>, position: int) -> ZvalView {
    if 0 <= position < args.len() {
        args[position]
    } else {
        undefined_cell()
    }
}

/// What ends up in the slots when so many are asked for.
pub open spec fn parsed_slots(args: Seq<ZvalView>, arity: nat) -> Seq<ZvalView> {
    Seq::new(arity, |position: int| parsed_slot(args, position))
}

impl ExecuteData {
    /// The arguments, in the order in which the caller supplied them.
    pub open(crate) spec fn view(&self) -> Seq<ZvalView> {
        Seq::new(self.args.len() as nat, |i: int| self.args[i]@)
    }

    /// The call that supplies the given arguments.
    pub fn new(args: Vec<Zval>) -> (data: ExecuteData)
        ensures
            data@ == args@.map_values(|cell: Zval| cell@),
    {
        let data = ExecuteData { args };
        assert(data@ =~= args@.map_values(|cell: Zval| cell@));
        data
    }

    /// The call as the host's decoder has handed it out, slot by slot: the
    /// arguments are the slots that the decoder filled, up to the first
    /// that it left empty. What stands behind an empty slot does not count.
    pub fn from_slots(slots: &Vec<Option<Zval>>) -> (data: ExecuteData)
        ensures
            data@.len() <= slots@.len(),
            forall|i: int|
                0 <= i < data@.len() ==> (#[trigger] slots@[i]) is Some && slots@[i]->Some_0@
                    == data@[i],
            data@.len() < slots@.len() ==> slots@[data@.len() as int] is None,
    {
        let mut args: Vec<Zval> = Vec::new();
        let mut index: usize = 0;
        while index < slots.len()
            invariant
                index <= slots.len(),
                args.len() == index,
                forall|i: int|
                    0 <= i < index ==> (#[trigger] slots@[i]) is Some && slots@[i]->Some_0@
                        == args@[i]@,
            decreases slots.len() - index,
        {
            match &slots[index] {
                Some(cell) => {
                    args.push(cell.clone());
                },
                None => {
                    return ExecuteData { args };
                },
            }
            index += 1;
        }
        ExecuteData { args }
    }

    /// How many arguments the caller supplied.
    pub fn num_args(&self) -> (count: usize)
        ensures
            count == self@.len(),
    {
        self.args.len()
    }

    /// The argument at a position, if the caller supplied that many.
    pub fn arg(&self, position: usize) -> (cell: Option<&Zval>)
        ensures
            position < self@.len() ==> cell is Some && cell->Some_0@ == self@[position as int],
            position >= self@.len() ==> cell is None,
    {
        if position < self.args.len() {
            Some(&self.args[position])
        } else {
            None
        }
    }
}

/// The most values that can be asked for at once.
pub const MAX_PARAMETERS: usize = 5;

/// The format by which the host's decoder is asked for so many values,
/// each of any kind: one `z` for each.
pub fn parse_format(arity: usize) -> (format: &'static str)
    requires
        1 <= arity <= MAX_PARAMETERS,
    ensures
        format@ == Seq::new(arity as nat, |i: int| 'z'),
{
    proof {
        reveal_strlit("z");
        reveal_strlit("zz");
        reveal_strlit("zzz");
        reveal_strlit("zzzz");
        reveal_strlit("zzzzz");
    }
    let format = if arity == 1 {
        "z"
    } else if arity == 2 {
        "zz"
    } else if arity == 3 {
        "zzz"
    } else if arity == 4 {
        "zzzz"
    } else {
        "zzzzz"
    };
    assert(format@ =~= Seq::new(arity as nat, |i: int| 'z'));
    format
}

/// Copies the cell that the host's decoder handed out into a cell of the
/// extension: payload, type word and the host's word.
pub fn add_zend_value_to_zval(value: &Zval, zval: &mut Zval)
    ensures
        final(zval)@ == value@,
{
    *zval = value.clone();
}

/// Fills one slot from the call: with a copy of the argument at its
/// position, or with an undefined cell where the caller supplied too few.
pub fn parse_parameter(data: &ExecuteData, position: usize, slot: &mut Zval)
    ensures
        final(slot)@ == parsed_slot(data@, position as int),
{
    match data.arg(position) {
        Some(value) => add_zend_value_to_zval(value, slot),
        None => {
            *slot = Zval::new_as_undef();
        },
    }
}

/// Returns a value from a function back to the host: the value is laid
/// into the output slot that the function was given, in place of what the
/// slot held, and nothing else is touched.
pub fn php_return<T: ToPhpZval>(retval: &mut Zval, value: T)
    requires
        value.encodable(),
    ensures
        final(retval)@ == value.encoded(),
{
    *retval = Zval::new(value);
}

/// A row of cells that can be filled from the arguments of a call.
pub trait PhpParseParameters {
    /// The cells of the row, in order.
    spec fn slots(&self) -> Seq<ZvalView>;

    /// Fills every cell of the row from the call. The first cell gets the
    /// first argument, and so on. Where the caller supplied fewer
    /// arguments than there are cells, the host raises a warning of its
    /// own and the cells left over are undefined; whoever reads such a
    /// cell as a native value is refused.
    fn parse_parameters(&mut self, data: &ExecuteData)
        ensures
            final(self).slots() == parsed_slots(data@, old(self).slots().len()),
    ;
}

impl<'a> PhpParseParameters for [&'a mut Zval; 1] {
    open spec fn slots(&self) -> Seq<ZvalView> {
        Seq::new(1, |i: int| (*self[i])@)
    }

    /// Fills one cell. Each cell that was lent to the row is the cell that
    /// is filled.
    fn parse_parameters(&mut self, data: &ExecuteData)
        ensures
            (*final(self)[0])@ == parsed_slot(data@, 0),
            *final(final(self)[0]) == *final(old(self)[0]),
    {
        parse_parameter(data, 0, &mut *self[0]);
        assert(self.slots() =~= parsed_slots(data@, 1));
    }
}

impl<'a> PhpParseParameters for [&'a mut Zval; 2] {
    open spec fn slots(&self) -> Seq<ZvalView> {
        Seq::new(2, |i: int| (*self[i])@)
    }

    /// Fills two cells. Each cell that was lent to the row is the cell that
    /// is filled.
    fn parse_parameters(&mut self, data: &ExecuteData)
        ensures
            (*final(self)[0])@ == parsed_slot(data@, 0),
            *final(final(self)[0]) == *final(old(self)[0]),
            (*final(self)[1])@ == parsed_slot(data@, 1),
            *final(final(self)[1]) == *final(old(self)[1]),
    {
        parse_parameter(data, 0, &mut *self[0]);
        parse_parameter(data, 1, &mut *self[1]);
        assert(self.slots() =~= parsed_slots(data@, 2));
    }
}

impl<'a> PhpParseParameters for [&'a mut Zval; 3] {
    open spec fn slots(&self) -> Seq<ZvalView> {
        Seq::new(3, |i: int| (*self[i])@)
    }

    /// Fills three cells. Each cell that was lent to the row is the cell that
    /// is filled.
    fn parse_parameters(&mut self, data: &ExecuteData)
        ensures
            (*final(self)[0])@ == parsed_slot(data@, 0),
            *final(final(self)[0]) == *final(old(self)[0]),
            (*final(self)[1])@ == parsed_slot(data@, 1),
            *final(final(self)[1]) == *final(old(self)[1]),
            (*final(self)[2])@ == parsed_slot(data@, 2),
            *final(final(self)[2]) == *final(old(self)[2]),
    {
        parse_parameter(data, 0, &mut *self[0]);
        parse_parameter(data, 1, &mut *self[1]);
        parse_parameter(data, 2, &mut *self[2]);
        assert(self.slots() =~= parsed_slots(data@, 3));
    }
}

impl<'a> PhpParseParameters for [&'a mut Zval; 4] {
    open spec fn slots(&self) -> Seq<ZvalView> {
        Seq::new(4, |i: int| (*self[i])@)
    }

    /// Fills four cells. Each cell that was lent to the row is the cell that
    /// is filled.
    fn parse_parameters(&mut self, data: &ExecuteData)
        ensures
            (*final(self)[0])@ == parsed_slot(data@, 0),
            *final(final(self)[0]) == *final(old(self)[0]),
            (*final(self)[1])@ == parsed_slot(data@, 1),
            *final(final(self)[1]) == *final(old(self)[1]),
            (*final(self)[2])@ == parsed_slot(data@, 2),
            *final(final(self)[2]) == *final(old(self)[2]),
            (*final(self)[3])@ == parsed_slot(data@, 3),
            *final(final(self)[3]) == *final(old(self)[3]),
    {
        parse_parameter(data, 0, &mut *self[0]);
        parse_parameter(data, 1, &mut *self[1]);
        parse_parameter(data, 2, &mut *self[2]);
        parse_parameter(data, 3, &mut *self[3]);
        assert(self.slots() =~= parsed_slots(data@, 4));
    }
}

impl<'a> PhpParseParameters for [&'a mut Zval; 5] {
    open spec fn slots(&self) -> Seq<ZvalView> {
        Seq::new(5, |i: int| (*self[i])@)
    }

    /// Fills five cells. Each cell that was lent to the row is the cell that
    /// is filled.
    fn parse_parameters(&mut self, data: &ExecuteData)
        ensures
            (*final(self)[0])@ == parsed_slot(data@, 0),
            *final(final(self)[0]) == *final(old(self)[0]),
            (*final(self)[1])@ == parsed_slot(data@, 1),
            *final(final(self)[1]) == *final(old(self)[1]),
            (*final(self)[2])@ == parsed_slot(data@, 2),
            *final(final(self)[2]) == *final(old(self)[2]),
            (*final(self)[3])@ == parsed_slot(data@, 3),
            *final(final(self)[3]) == *final(old(self)[3]),
            (*final(self)[4])@ == parsed_slot(data@, 4),
            *final(final(self)[4]) == *final(old(self)[4]),
    {
        parse_parameter(data, 0, &mut *self[0]);
        parse_parameter(data, 1, &mut *self[1]);
        parse_parameter(data, 2, &mut *self[2]);
        parse_parameter(data, 3, &mut *self[3]);
        parse_parameter(data, 4, &mut *self[4]);
        assert(self.slots() =~= parsed_slots(data@, 5));
    }
}

} // verus!
