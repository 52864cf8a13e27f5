use crate::app::types::{bit_of, lemma_mask_bits, DoubleBit};
use vstd::prelude::*;

verus! {

/// mask of the ONLINE bit
pub const ONLINE: u8 = 0x01;

/// Measurement flags (aka quality)
#[derive(Copy, Clone, Debug, PartialEq, Eq, Structural)]
pub struct Flags {
    pub value: u8,
}

impl Flags {
    pub fn new(value: u8) -> (f: Self)
        ensures
            f.value == value,
    {
        Self { value }
    }

    /// flags with only the ONLINE bit set
    pub fn new_online() -> (f: Self)
        ensures
            f.value == ONLINE,
    {
        Self { value: ONLINE }
    }

    /// bit 0
    pub fn online(self) -> (b: bool)
        ensures
            b == bit_of(self.value, 0),
    {
        proof {
            lemma_mask_bits(self.value);
        }
        self.value & 0x01 != 0
    }

    /// bit 1
    pub fn restart(self) -> (b: bool)
        ensures
            b == bit_of(self.value, 1),
    {
        proof {
            lemma_mask_bits(self.value);
        }
        self.value & 0x02 != 0
    }

    /// bit 2
    pub fn comm_lost(self) -> (b: bool)
        ensures
            b == bit_of(self.value, 2),
    {
        proof {
            lemma_mask_bits(self.value);
        }
        self.value & 0x04 != 0
    }

    /// bit 3
    pub fn remote_forced(self) -> (b: bool)
        ensures
            b == bit_of(self.value, 3),
    {
        proof {
            lemma_mask_bits(self.value);
        }
        self.value & 0x08 != 0
    }

    /// bit 4
    pub fn local_forced(self) -> (b: bool)
        ensures
            b == bit_of(self.value, 4),
    {
        proof {
            lemma_mask_bits(self.value);
        }
        self.value & 0x10 != 0
    }

    /// bit 5
    pub fn chatter_filter(self) -> (b: bool)
        ensures
            b == bit_of(self.value, 5),
    {
        self.bit5()
    }

    /// bit 5
    pub fn rollover(self) -> (b: bool)
        ensures
            b == bit_of(self.value, 5),
    {
        self.bit5()
    }

    /// bit 6
    pub fn discontinuity(self) -> (b: bool)
        ensures
            b == bit_of(self.value, 6),
    {
        self.bit6()
    }

    /// bit 5
    pub fn over_range(self) -> (b: bool)
        ensures
            b == bit_of(self.value, 5),
    {
        self.bit5()
    }

    /// bit 6
    pub fn reference_err(self) -> (b: bool)
        ensures
            b == bit_of(self.value, 6),
    {
        self.bit6()
    }

    pub fn bit5(self) -> (b: bool)
        ensures
            b == bit_of(self.value, 5),
    {
        proof {
            lemma_mask_bits(self.value);
        }
        self.value & 0x20 != 0
    }

    pub fn bit6(self) -> (b: bool)
        ensures
            b == bit_of(self.value, 6),
    {
        proof {
            lemma_mask_bits(self.value);
        }
        self.value & 0x40 != 0
    }

    pub fn bit7(self) -> (b: bool)
        ensures
            b == bit_of(self.value, 7),
    {
        proof {
            lemma_mask_bits(self.value);
        }
        self.value & 0x80 != 0
    }

    /// bit 7
    pub fn state(self) -> (b: bool)
        ensures
            b == bit_of(self.value, 7),
    {
        self.bit7()
    }

    /// the double-bit state held in bits 7 (high) and 6 (low)
    pub open spec fn spec_double_bit_state(self) -> DoubleBit {
        match (bit_of(self.value, 7), bit_of(self.value, 6)) {
            (false, false) => DoubleBit::Intermediate,
            (false, true) => DoubleBit::DeterminedOff,
            (true, false) => DoubleBit::DeterminedOn,
            (true, true) => DoubleBit::Indeterminate,
        }
    }

    /// the double-bit state held in bits 7 (high) and 6 (low)
    pub fn double_bit_state(self) -> (d: DoubleBit)
        ensures
            d == self.spec_double_bit_state(),
            d.code() == (if bit_of(self.value, 7) { 2int } else { 0int }) + (if bit_of(self.value, 6) {
                1int
            } else {
                0int
            }),
    {
        DoubleBit::from_bits(self.bit7(), self.bit6())
    }
}

/// the digit of `n` in base 16, upper case
pub open spec fn spec_hex_digit(n: u8) -> Seq<char> {
    match n {

        0 => "0"@,
        1 => "1"@,
        2 => "2"@,
        3 => "3"@,
        4 => "4"@,
        5 => "5"@,
        6 => "6"@,
        7 => "7"@,
        8 => "8"@,
        9 => "9"@,
        10 => "A"@,
        11 => "B"@,
        12 => "C"@,
        13 => "D"@,
        14 => "E"@,
        15 => "F"@,
        _ => Seq::empty(),
    }
}

fn hex_digit(n: u8) -> (s: &'static str)
    requires
        n < 16,
    ensures
        s@ == spec_hex_digit(n),
{
    match n {
        0 => "0",
        1 => "1",
        2 => "2",
        3 => "3",
        4 => "4",
        5 => "5",
        6 => "6",
        7 => "7",
        8 => "8",
        9 => "9",
        10 => "A",
        11 => "B",
        12 => "C",
        13 => "D",
        14 => "E",
        _ => "F",
    }
}

/// whether any item is set
#[verifier::opaque]
pub open spec fn any_set(items: Seq<(bool, Seq<char>)>) -> bool
    decreases items.len(),
{
    if items.len() == 0 {
        false
    } else {
        items.last().0 || any_set(items.drop_last())
    }
}

/// the texts of the set items, in order, separated by ", "
#[verifier::opaque]
pub open spec fn flag_list(items: Seq<(bool, Seq<char>)>) -> Seq<char>
    decreases items.len(),
{
    if items.len() == 0 {
        Seq::empty()
    } else {
        let prev = flag_list(items.drop_last());
        if !items.last().0 {
            prev
        } else if any_set(items.drop_last()) {
            prev + ", "@ + items.last().1
        } else {
            prev + items.last().1
        }
    }
}

/// what the flags of the byte `value` read as: the byte in hexadecimal, then
/// the texts of the set items in brackets
pub open spec fn flags_text(value: u8, items: Seq<(bool, Seq<char>)>) -> Seq<char> {
    "0x"@ + spec_hex_digit(value / 16) + spec_hex_digit(value % 16) + " ["@ + flag_list(items)
        + "]"@
}

proof fn lemma_no_item()
    ensures
        flag_list(Seq::empty()) == Seq::<char>::empty(),
        !any_set(Seq::empty()),
{
    reveal(flag_list);
    reveal(any_set);
}

proof fn lemma_push_item(items: Seq<(bool, Seq<char>)>, x: (bool, Seq<char>))
    ensures
        any_set(items.push(x)) == (any_set(items) || x.0),
        flag_list(items.push(x)) == (if !x.0 {
            flag_list(items)
        } else if any_set(items) {
            flag_list(items) + ", "@ + x.1
        } else {
            flag_list(items) + x.1
        }),
{
    reveal(flag_list);
    reveal(any_set);
    assert(items.push(x).drop_last() =~= items);
}

/// Writes the names of the set flags, separated by commas
pub struct FlagFormatter {
    prev: bool,
    text: String,
}

impl FlagFormatter {
    /// whether a name was written already
    pub closed spec fn spec_prev(&self) -> bool {
        self.prev
    }

    /// the text written so far
    pub closed spec fn spec_text(&self) -> Seq<char> {
        self.text@
    }

    pub fn new() -> (f: Self)
        ensures
            !f.spec_prev(),
            f.spec_text() == Seq::<char>::empty(),
    {
        Self { prev: false, text: String::new() }
    }

    /// writes `text` where `is_set`, after a separator where a name came before
    pub fn push(&mut self, is_set: bool, text: &str)
        ensures
            final(self).spec_prev() == (old(self).spec_prev() || is_set),
            final(self).spec_text() == (if !is_set {
                old(self).spec_text()
            } else if old(self).spec_prev() {
                old(self).spec_text() + ", "@ + text@
            } else {
                old(self).spec_text() + text@
            }),
    {
        if is_set {
            if self.prev {
                self.text.append(", ");
            }
            self.prev = true;
            self.text.append(text);
        }
    }

    /// writes `name = item`, after a separator where a name came before;
    /// `item` is the text of the value
    pub fn push_debug_item(&mut self, name: &str, item: &str)
        ensures
            final(self).spec_prev(),
            final(self).spec_text() == (if old(self).spec_prev() {
                old(self).spec_text() + ", "@ + (name@ + " = "@ + item@)
            } else {
                old(self).spec_text() + (name@ + " = "@ + item@)
            }),
    {
        if self.prev {
            self.text.append(", ");
        }
        self.prev = true;
        self.text.append(name);
        self.text.append(" = ");
        self.text.append(item);
        assert(self.text@ =~= if old(self).prev {
            old(self).text@ + ", "@ + (name@ + " = "@ + item@)
        } else {
            old(self).text@ + (name@ + " = "@ + item@)
        });
    }

    /// `push`, keeping the text that of `head` followed by the list of
    /// `items`
    fn push_item(
        &mut self,
        is_set: bool,
        text: &str,
        Ghost(head): Ghost<Seq<char>>,
        Ghost(items): Ghost<Seq<(bool, Seq<char>)>>,
    )
        requires
            old(self).text@ == head + flag_list(items),
            old(self).prev == any_set(items),
        ensures
            final(self).text@ == head + flag_list(items.push((is_set, text@))),
            final(self).prev == any_set(items.push((is_set, text@))),
    {
        proof {
            lemma_push_item(items, (is_set, text@));
        }
        self.push(is_set, text);
        proof {
            if is_set {
                if any_set(items) {
                    assert(self.text@ =~= head + flag_list(items.push((is_set, text@))));
                } else {
                    assert(self.text@ =~= head + flag_list(items.push((is_set, text@))));
                }
            }
        }
    }

    /// `push_debug_item`, keeping the text that of `head` followed by the list
    /// of `items`
    fn push_debug_entry(
        &mut self,
        name: &str,
        item: &str,
        Ghost(head): Ghost<Seq<char>>,
        Ghost(items): Ghost<Seq<(bool, Seq<char>)>>,
    )
        requires
            old(self).text@ == head + flag_list(items),
            old(self).prev == any_set(items),
        ensures
            final(self).text@ == head + flag_list(items.push((true, name@ + " = "@ + item@))),
            final(self).prev == any_set(items.push((true, name@ + " = "@ + item@))),
    {
        proof {
            lemma_push_item(items, (true, name@ + " = "@ + item@));
        }
        self.push_debug_item(name, item);
        proof {
            assert(self.text@ =~= head + flag_list(items.push((true, name@ + " = "@ + item@))));
        }
    }

    fn begin(&mut self, flags: Flags)
        ensures
            final(self).prev == old(self).prev,
            final(self).text@ == old(self).text@ + "0x"@ + spec_hex_digit(flags.value / 16)
                + spec_hex_digit(flags.value % 16) + " ["@,
    {
        self.text.append("0x");
        self.text.append(hex_digit(flags.value / 16));
        self.text.append(hex_digit(flags.value % 16));
        self.text.append(" [");
    }

    fn end(self) -> (s: String)
        ensures
            s@ == self.text@ + "]"@,
    {
        let mut text = self.text;
        text.append("]");
        text
    }
}

/// the items of the flags of a binary input, in order
pub open spec fn binary_flag_items(value: u8) -> Seq<(bool, Seq<char>)> {
    seq![(bit_of(value, 0), "ONLINE"@), (bit_of(value, 1), "RESTART"@), (bit_of(value, 2), "COMM_LOST"@), (bit_of(value, 3), "REMOTE_FORCED"@), (bit_of(value, 4), "LOCAL_FORCED"@), (bit_of(value, 5), "CHATTER_FILTER"@), (bit_of(value, 6), "RESERVED(6)"@), (bit_of(value, 7), "STATE"@)]
}

/// Formats the flags of a binary input
pub struct BinaryFlagFormatter {
    flags: Flags,
}

impl BinaryFlagFormatter {
    pub closed spec fn spec_value(&self) -> u8 {
        self.flags.value
    }

    pub fn new(value: u8) -> (f: Self)
        ensures
            f.spec_value() == value,
    {
        Self { flags: Flags::new(value) }
    }

    /// the flags as text: the byte in hexadecimal, then the names of the set
    /// flags in brackets
    #[verifier::rlimit(40)]
    pub fn text(&self) -> (s: String)
        ensures
            s@ == flags_text(self.spec_value(), binary_flag_items(self.spec_value())),
    {
        let ghost value = self.flags.value;
        let ghost all = binary_flag_items(value);
        let ghost head = "0x"@ + spec_hex_digit(value / 16) + spec_hex_digit(value % 16) + " ["@;
        let mut formatter = FlagFormatter::new();
        formatter.begin(self.flags);
        let ghost mut items = Seq::<(bool, Seq<char>)>::empty();
        proof {
            lemma_no_item();
            assert(formatter.text@ =~= head + flag_list(items));
            assert(!formatter.prev);
        }
        let b = self.flags.online();
        formatter.push_item(b, "ONLINE", Ghost(head), Ghost(items));
        proof {
            items = items.push((b, "ONLINE"@));
        }
        let b = self.flags.restart();
        formatter.push_item(b, "RESTART", Ghost(head), Ghost(items));
        proof {
            items = items.push((b, "RESTART"@));
        }
        let b = self.flags.comm_lost();
        formatter.push_item(b, "COMM_LOST", Ghost(head), Ghost(items));
        proof {
            items = items.push((b, "COMM_LOST"@));
        }
        let b = self.flags.remote_forced();
        formatter.push_item(b, "REMOTE_FORCED", Ghost(head), Ghost(items));
        proof {
            items = items.push((b, "REMOTE_FORCED"@));
        }
        let b = self.flags.local_forced();
        formatter.push_item(b, "LOCAL_FORCED", Ghost(head), Ghost(items));
        proof {
            items = items.push((b, "LOCAL_FORCED"@));
        }
        let b = self.flags.chatter_filter();
        formatter.push_item(b, "CHATTER_FILTER", Ghost(head), Ghost(items));
        proof {
            items = items.push((b, "CHATTER_FILTER"@));
        }
        let b = self.flags.bit6();
        formatter.push_item(b, "RESERVED(6)", Ghost(head), Ghost(items));
        proof {
            items = items.push((b, "RESERVED(6)"@));
        }
        let b = self.flags.state();
        formatter.push_item(b, "STATE", Ghost(head), Ghost(items));
        proof {
            items = items.push((b, "STATE"@));
        }
        proof {
            assert(items =~= all);
        }
        formatter.end()
    }
}

/// the items of the flags of a double-bit binary input, with its state, in order
pub open spec fn double_bit_binary_flag_items(value: u8) -> Seq<(bool, Seq<char>)> {
    seq![(bit_of(value, 0), "ONLINE"@), (bit_of(value, 1), "RESTART"@), (bit_of(value, 2), "COMM_LOST"@), (bit_of(value, 3), "REMOTE_FORCED"@), (bit_of(value, 4), "LOCAL_FORCED"@), (bit_of(value, 5), "CHATTER_FILTER"@), (true, "state"@ + " = "@ + Flags { value }.spec_double_bit_state().spec_name())]
}

/// Formats the flags of a double-bit binary input, with its state
pub struct DoubleBitBinaryFlagFormatter {
    flags: Flags,
}

impl DoubleBitBinaryFlagFormatter {
    pub closed spec fn spec_value(&self) -> u8 {
        self.flags.value
    }

    pub fn new(value: u8) -> (f: Self)
        ensures
            f.spec_value() == value,
    {
        Self { flags: Flags::new(value) }
    }

    /// the flags as text: the byte in hexadecimal, then the names of the set
    /// flags in brackets
    #[verifier::rlimit(40)]
    pub fn text(&self) -> (s: String)
        ensures
            s@ == flags_text(self.spec_value(), double_bit_binary_flag_items(self.spec_value())),
    {
        let ghost value = self.flags.value;
        let ghost all = double_bit_binary_flag_items(value);
        let ghost head = "0x"@ + spec_hex_digit(value / 16) + spec_hex_digit(value % 16) + " ["@;
        let mut formatter = FlagFormatter::new();
        formatter.begin(self.flags);
        let ghost mut items = Seq::<(bool, Seq<char>)>::empty();
        proof {
            lemma_no_item();
            assert(formatter.text@ =~= head + flag_list(items));
            assert(!formatter.prev);
        }
        let b = self.flags.online();
        formatter.push_item(b, "ONLINE", Ghost(head), Ghost(items));
        proof {
            items = items.push((b, "ONLINE"@));
        }
        let b = self.flags.restart();
        formatter.push_item(b, "RESTART", Ghost(head), Ghost(items));
        proof {
            items = items.push((b, "RESTART"@));
        }
        let b = self.flags.comm_lost();
        formatter.push_item(b, "COMM_LOST", Ghost(head), Ghost(items));
        proof {
            items = items.push((b, "COMM_LOST"@));
        }
        let b = self.flags.remote_forced();
        formatter.push_item(b, "REMOTE_FORCED", Ghost(head), Ghost(items));
        proof {
            items = items.push((b, "REMOTE_FORCED"@));
        }
        let b = self.flags.local_forced();
        formatter.push_item(b, "LOCAL_FORCED", Ghost(head), Ghost(items));
        proof {
            items = items.push((b, "LOCAL_FORCED"@));
        }
        let b = self.flags.chatter_filter();
        formatter.push_item(b, "CHATTER_FILTER", Ghost(head), Ghost(items));
        proof {
            items = items.push((b, "CHATTER_FILTER"@));
        }
        let name = self.flags.double_bit_state().name();
        formatter.push_debug_entry("state", name, Ghost(head), Ghost(items));
        proof {
            items = items.push((true, "state"@ + " = "@ + name@));
        }
        proof {
            assert(items =~= all);
        }
        formatter.end()
    }
}

/// the items of the flags of a binary output status, in order
pub open spec fn binary_output_status_flag_items(value: u8) -> Seq<(bool, Seq<char>)> {
    seq![(bit_of(value, 0), "ONLINE"@), (bit_of(value, 1), "RESTART"@), (bit_of(value, 2), "COMM_LOST"@), (bit_of(value, 3), "REMOTE_FORCED"@), (bit_of(value, 4), "LOCAL_FORCED"@), (bit_of(value, 5), "RESERVED(5)"@), (bit_of(value, 6), "RESERVED(6)"@), (bit_of(value, 7), "STATE"@)]
}

/// Formats the flags of a binary output status
pub struct BinaryOutputStatusFlagFormatter {
    flags: Flags,
}

impl BinaryOutputStatusFlagFormatter {
    pub closed spec fn spec_value(&self) -> u8 {
        self.flags.value
    }

    pub fn new(value: u8) -> (f: Self)
        ensures
            f.spec_value() == value,
    {
        Self { flags: Flags::new(value) }
    }

    /// the flags as text: the byte in hexadecimal, then the names of the set
    /// flags in brackets
    #[verifier::rlimit(40)]
    pub fn text(&self) -> (s: String)
        ensures
            s@ == flags_text(self.spec_value(), binary_output_status_flag_items(self.spec_value())),
    {
        let ghost value = self.flags.value;
        let ghost all = binary_output_status_flag_items(value);
        let ghost head = "0x"@ + spec_hex_digit(value / 16) + spec_hex_digit(value % 16) + " ["@;
        let mut formatter = FlagFormatter::new();
        formatter.begin(self.flags);
        let ghost mut items = Seq::<(bool, Seq<char>)>::empty();
        proof {
            lemma_no_item();
            assert(formatter.text@ =~= head + flag_list(items));
            assert(!formatter.prev);
        }
        let b = self.flags.online();
        formatter.push_item(b, "ONLINE", Ghost(head), Ghost(items));
        proof {
            items = items.push((b, "ONLINE"@));
        }
        let b = self.flags.restart();
        formatter.push_item(b, "RESTART", Ghost(head), Ghost(items));
        proof {
            items = items.push((b, "RESTART"@));
        }
        let b = self.flags.comm_lost();
        formatter.push_item(b, "COMM_LOST", Ghost(head), Ghost(items));
        proof {
            items = items.push((b, "COMM_LOST"@));
        }
        let b = self.flags.remote_forced();
        formatter.push_item(b, "REMOTE_FORCED", Ghost(head), Ghost(items));
        proof {
            items = items.push((b, "REMOTE_FORCED"@));
        }
        let b = self.flags.local_forced();
        formatter.push_item(b, "LOCAL_FORCED", Ghost(head), Ghost(items));
        proof {
            items = items.push((b, "LOCAL_FORCED"@));
        }
        let b = self.flags.bit5();
        formatter.push_item(b, "RESERVED(5)", Ghost(head), Ghost(items));
        proof {
            items = items.push((b, "RESERVED(5)"@));
        }
        let b = self.flags.bit6();
        formatter.push_item(b, "RESERVED(6)", Ghost(head), Ghost(items));
        proof {
            items = items.push((b, "RESERVED(6)"@));
        }
        let b = self.flags.state();
        formatter.push_item(b, "STATE", Ghost(head), Ghost(items));
        proof {
            items = items.push((b, "STATE"@));
        }
        proof {
            assert(items =~= all);
        }
        formatter.end()
    }
}

/// the items of the flags of a counter, in order
pub open spec fn counter_flag_items(value: u8) -> Seq<(bool, Seq<char>)> {
    seq![(bit_of(value, 0), "ONLINE"@), (bit_of(value, 1), "RESTART"@), (bit_of(value, 2), "COMM_LOST"@), (bit_of(value, 3), "REMOTE_FORCED"@), (bit_of(value, 4), "LOCAL_FORCED"@), (bit_of(value, 5), "ROLLOVER"@), (bit_of(value, 6), "DISCONTINUITY"@), (bit_of(value, 7), "RESERVED(7)"@)]
}

/// Formats the flags of a counter
pub struct CounterFlagFormatter {
    flags: Flags,
}

impl CounterFlagFormatter {
    pub closed spec fn spec_value(&self) -> u8 {
        self.flags.value
    }

    pub fn new(value: u8) -> (f: Self)
        ensures
            f.spec_value() == value,
    {
        Self { flags: Flags::new(value) }
    }

    /// the flags as text: the byte in hexadecimal, then the names of the set
    /// flags in brackets
    #[verifier::rlimit(40)]
    pub fn text(&self) -> (s: String)
        ensures
            s@ == flags_text(self.spec_value(), counter_flag_items(self.spec_value())),
    {
        let ghost value = self.flags.value;
        let ghost all = counter_flag_items(value);
        let ghost head = "0x"@ + spec_hex_digit(value / 16) + spec_hex_digit(value % 16) + " ["@;
        let mut formatter = FlagFormatter::new();
        formatter.begin(self.flags);
        let ghost mut items = Seq::<(bool, Seq<char>)>::empty();
        proof {
            lemma_no_item();
            assert(formatter.text@ =~= head + flag_list(items));
            assert(!formatter.prev);
        }
        let b = self.flags.online();
        formatter.push_item(b, "ONLINE", Ghost(head), Ghost(items));
        proof {
            items = items.push((b, "ONLINE"@));
        }
        let b = self.flags.restart();
        formatter.push_item(b, "RESTART", Ghost(head), Ghost(items));
        proof {
            items = items.push((b, "RESTART"@));
        }
        let b = self.flags.comm_lost();
        formatter.push_item(b, "COMM_LOST", Ghost(head), Ghost(items));
        proof {
            items = items.push((b, "COMM_LOST"@));
        }
        let b = self.flags.remote_forced();
        formatter.push_item(b, "REMOTE_FORCED", Ghost(head), Ghost(items));
        proof {
            items = items.push((b, "REMOTE_FORCED"@));
        }
        let b = self.flags.local_forced();
        formatter.push_item(b, "LOCAL_FORCED", Ghost(head), Ghost(items));
        proof {
            items = items.push((b, "LOCAL_FORCED"@));
        }
        let b = self.flags.rollover();
        formatter.push_item(b, "ROLLOVER", Ghost(head), Ghost(items));
        proof {
            items = items.push((b, "ROLLOVER"@));
        }
        let b = self.flags.discontinuity();
        formatter.push_item(b, "DISCONTINUITY", Ghost(head), Ghost(items));
        proof {
            items = items.push((b, "DISCONTINUITY"@));
        }
        let b = self.flags.bit7();
        formatter.push_item(b, "RESERVED(7)", Ghost(head), Ghost(items));
        proof {
            items = items.push((b, "RESERVED(7)"@));
        }
        proof {
            assert(items =~= all);
        }
        formatter.end()
    }
}

/// the items of the flags of an analog value, in order
pub open spec fn analog_flag_items(value: u8) -> Seq<(bool, Seq<char>)> {
    seq![(bit_of(value, 0), "ONLINE"@), (bit_of(value, 1), "RESTART"@), (bit_of(value, 2), "COMM_LOST"@), (bit_of(value, 3), "REMOTE_FORCED"@), (bit_of(value, 4), "LOCAL_FORCED"@), (bit_of(value, 5), "OVER_RANGE"@), (bit_of(value, 6), "REFERENCE_ERR"@), (bit_of(value, 7), "RESERVED(7)"@)]
}

/// Formats the flags of an analog value
pub struct AnalogFlagFormatter {
    flags: Flags,
}

impl AnalogFlagFormatter {
    pub closed spec fn spec_value(&self) -> u8 {
        self.flags.value
    }

    pub fn new(value: u8) -> (f: Self)
        ensures
            f.spec_value() == value,
    {
        Self { flags: Flags::new(value) }
    }

    /// the flags as text: the byte in hexadecimal, then the names of the set
    /// flags in brackets
    #[verifier::rlimit(40)]
    pub fn text(&self) -> (s: String)
        ensures
            s@ == flags_text(self.spec_value(), analog_flag_items(self.spec_value())),
    {
        let ghost value = self.flags.value;
        let ghost all = analog_flag_items(value);
        let ghost head = "0x"@ + spec_hex_digit(value / 16) + spec_hex_digit(value % 16) + " ["@;
        let mut formatter = FlagFormatter::new();
        formatter.begin(self.flags);
        let ghost mut items = Seq::<(bool, Seq<char>)>::empty();
        proof {
            lemma_no_item();
            assert(formatter.text@ =~= head + flag_list(items));
            assert(!formatter.prev);
        }
        let b = self.flags.online();
        formatter.push_item(b, "ONLINE", Ghost(head), Ghost(items));
        proof {
            items = items.push((b, "ONLINE"@));
        }
        let b = self.flags.restart();
        formatter.push_item(b, "RESTART", Ghost(head), Ghost(items));
        proof {
            items = items.push((b, "RESTART"@));
        }
        let b = self.flags.comm_lost();
        formatter.push_item(b, "COMM_LOST", Ghost(head), Ghost(items));
        proof {
            items = items.push((b, "COMM_LOST"@));
        }
        let b = self.flags.remote_forced();
        formatter.push_item(b, "REMOTE_FORCED", Ghost(head), Ghost(items));
        proof {
            items = items.push((b, "REMOTE_FORCED"@));
        }
        let b = self.flags.local_forced();
        formatter.push_item(b, "LOCAL_FORCED", Ghost(head), Ghost(items));
        proof {
            items = items.push((b, "LOCAL_FORCED"@));
        }
        let b = self.flags.over_range();
        formatter.push_item(b, "OVER_RANGE", Ghost(head), Ghost(items));
        proof {
            items = items.push((b, "OVER_RANGE"@));
        }
        let b = self.flags.reference_err();
        formatter.push_item(b, "REFERENCE_ERR", Ghost(head), Ghost(items));
        proof {
            items = items.push((b, "REFERENCE_ERR"@));
        }
        let b = self.flags.bit7();
        formatter.push_item(b, "RESERVED(7)", Ghost(head), Ghost(items));
        proof {
            items = items.push((b, "RESERVED(7)"@));
        }
        proof {
            assert(items =~= all);
        }
        formatter.end()
    }
}

} // verus!
