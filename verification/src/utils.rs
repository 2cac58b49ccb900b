//! Human-readable byte formatting and a fixed-capacity ring buffer for
//! history samples.

use vstd::prelude::*;

verus! {

use vstd::string::StringExecFns;

pub const KIB: u64 = 1024;

pub const MIB: u64 = 1024 * 1024;

pub const GIB: u64 = 1024 * 1024 * 1024;

/// The decimal digit character for a value below ten.
pub open spec fn digit_char(d: nat) -> char {
    if d == 0 {
        '0'
    } else if d == 1 {
        '1'
    } else if d == 2 {
        '2'
    } else if d == 3 {
        '3'
    } else if d == 4 {
        '4'
    } else if d == 5 {
        '5'
    } else if d == 6 {
        '6'
    } else if d == 7 {
        '7'
    } else if d == 8 {
        '8'
    } else {
        '9'
    }
}

/// The decimal digits of a number, most significant first.
pub open spec fn dec_rep(n: nat) -> Seq<char>
    decreases n,
{
    if n < 10 {
        seq![digit_char(n)]
    } else {
        dec_rep(n / 10).push(digit_char(n % 10))
    }
}

fn digit_str(d: u64) -> (r: &'static str)
    requires
        d < 10,
    ensures
        r@ == seq![digit_char(d as nat)],
{
    let s: &'static str = match d {
        0 => "0",
        1 => "1",
        2 => "2",
        3 => "3",
        4 => "4",
        5 => "5",
        6 => "6",
        7 => "7",
        8 => "8",
        _ => "9",
    };
    proof {
        reveal_strlit("0");
        reveal_strlit("1");
        reveal_strlit("2");
        reveal_strlit("3");
        reveal_strlit("4");
        reveal_strlit("5");
        reveal_strlit("6");
        reveal_strlit("7");
        reveal_strlit("8");
        reveal_strlit("9");
        assert(s@ =~= seq![digit_char(d as nat)]);
    }
    s
}

/// Renders a number in decimal.
pub fn u64_to_decimal(n: u64) -> (r: String)
    ensures
        r@ == dec_rep(n as nat),
    decreases n,
{
    if n < 10 {
        String::from_str(digit_str(n))
    } else {
        let mut s = u64_to_decimal(n / 10);
        s.append(digit_str(n % 10));
        proof {
            assert(s@ =~= dec_rep(n as nat));
        }
        s
    }
}

/// A value in hundredths of a unit of `div`, rounded to the nearest
/// hundredth (half away from zero).
pub open spec fn scaled_centi(bytes: nat, div: nat) -> nat
    recommends
        div > 0,
{
    (bytes * 100 + div / 2) / div
}

/// Two decimal digits, zero-padded.
pub open spec fn pad2(n: nat) -> Seq<char> {
    if n < 10 {
        seq!['0'] + seq![digit_char(n)]
    } else {
        dec_rep(n)
    }
}

/// `<whole>.<two digits>` for a value given in hundredths.
pub open spec fn two_dec_rep(scaled: nat) -> Seq<char> {
    dec_rep(scaled / 100) + seq!['.'] + pad2(scaled % 100)
}

fn format_scaled(bytes: u64, div: u64) -> (r: String)
    requires
        div >= 100,
    ensures
        r@ == two_dec_rep(scaled_centi(bytes as nat, div as nat)),
{
    let scaled_wide: u128 = ((bytes as u128) * 100 + (div as u128) / 2) / (div as u128);
    proof {
        assert((scaled_wide as int) <= u64::MAX as int) by (nonlinear_arith)
            requires
                div >= 100,
                bytes <= u64::MAX,
                (scaled_wide as int) == ((bytes as int) * 100 + (div as int) / 2) / (div as int),
        {}
    }
    let scaled = scaled_wide as u64;
    let whole = scaled / 100;
    let frac = scaled % 100;
    let mut out = u64_to_decimal(whole);
    out.append(".");
    if frac < 10 {
        out.append("0");
        out.append(digit_str(frac));
    } else {
        let f = u64_to_decimal(frac);
        out.append(f.as_str());
    }
    proof {
        reveal_strlit(".");
        reveal_strlit("0");
        assert(out@ =~= two_dec_rep(scaled_centi(bytes as nat, div as nat)));
    }
    out
}

/// The human-readable form of a byte count: the largest fitting binary
/// unit with two decimal places (rounded to the nearest hundredth), or the
/// bare count below one kilobyte.
pub open spec fn format_bytes_spec(bytes: nat) -> Seq<char> {
    if bytes >= GIB as nat {
        two_dec_rep(scaled_centi(bytes, GIB as nat)) + " GB"@
    } else if bytes >= MIB as nat {
        two_dec_rep(scaled_centi(bytes, MIB as nat)) + " MB"@
    } else if bytes >= KIB as nat {
        two_dec_rep(scaled_centi(bytes, KIB as nat)) + " KB"@
    } else {
        dec_rep(bytes) + " B"@
    }
}

/// Formats a byte count for display.
pub fn format_bytes(bytes: u64) -> (r: String)
    ensures
        r@ == format_bytes_spec(bytes as nat),
{
    if bytes >= GIB {
        let mut out = format_scaled(bytes, GIB);
        out.append(" GB");
        out
    } else if bytes >= MIB {
        let mut out = format_scaled(bytes, MIB);
        out.append(" MB");
        out
    } else if bytes >= KIB {
        let mut out = format_scaled(bytes, KIB);
        out.append(" KB");
        out
    } else {
        let mut out = u64_to_decimal(bytes);
        out.append(" B");
        out
    }
}

/// Fixed-capacity ring buffer holding the most recent values pushed into
/// it; its view is those values in chronological order, oldest first.
pub struct CircularBuffer<T> {
    data: Vec<T>,
    capacity: usize,
    head: usize,
    size: usize,
}

impl<T> View for CircularBuffer<T> {
    type V = Seq<T>;

    closed spec fn view(&self) -> Seq<T> {
        if self.size < self.capacity {
            self.data@
        } else {
            self.data@.skip(self.head as int) + self.data@.take(self.head as int)
        }
    }
}

impl<T: Copy> CircularBuffer<T> {
    /// The fixed capacity the buffer was created with.
    pub closed spec fn spec_capacity(self) -> usize {
        self.capacity
    }

    /// Structural soundness: the buffer never holds more than its capacity;
    /// while it is filling, values sit in storage order and the write head
    /// tracks the size; once full, the storage stays at capacity and the
    /// write head points at the oldest value.
    pub closed spec fn wf(self) -> bool {
        &&& self.capacity > 0
        &&& self.size <= self.capacity
        &&& self.head < self.capacity
        &&& (self.size < self.capacity ==> (self.head == self.size && self.data@.len()
            == self.size))
        &&& (self.size == self.capacity ==> self.data@.len() == self.capacity)
    }

    /// An empty buffer that will hold the `capacity` most recent values.
    pub fn new(capacity: usize) -> (r: CircularBuffer<T>)
        requires
            capacity > 0,
        ensures
            r.wf(),
            r@ == Seq::<T>::empty(),
            r.spec_capacity() == capacity,
    {
        CircularBuffer { data: Vec::new(), capacity, head: 0, size: 0 }
    }

    /// Appends a value; once the buffer is full, each push evicts the
    /// oldest value.
    pub fn push(&mut self, value: T)
        requires
            old(self).wf(),
        ensures
            final(self).wf(),
            final(self).spec_capacity() == old(self).spec_capacity(),
            final(self)@ == (if old(self)@.len() < old(self).spec_capacity() {
                old(self)@.push(value)
            } else {
                old(self)@.drop_first().push(value)
            }),
    {
        if self.size < self.capacity {
            self.data.push(value);
            self.head = if self.head + 1 == self.capacity {
                0
            } else {
                self.head + 1
            };
            self.size = self.size + 1;
            proof {
                if self.size < self.capacity {
                    assert(self@ =~= old(self)@.push(value));
                } else {
                    assert(self.head == 0);
                    assert(self@ =~= self.data@.skip(0) + self.data@.take(0));
                    assert(self@ =~= old(self)@.push(value));
                }
            }
        } else {
            let ghost h = self.head as int;
            let ghost c = self.capacity as int;
            self.data[self.head] = value;
            self.head = if self.head + 1 == self.capacity {
                0
            } else {
                self.head + 1
            };
            proof {
                assert(self.data@ =~= old(self).data@.update(h, value));
                if h + 1 < c {
                    assert(self@ =~= self.data@.skip(h + 1) + self.data@.take(h + 1));
                } else {
                    assert(self.head == 0);
                    assert(self@ =~= self.data@.skip(0) + self.data@.take(0));
                }
                assert(self@ =~= old(self)@.drop_first().push(value));
            }
        }
    }

    /// The value at a chronological position, oldest first; `None` past the
    /// end.
    pub fn get(&self, index: usize) -> (r: Option<T>)
        requires
            self.wf(),
        ensures
            r == (if index < self@.len() {
                Some(self@[index as int])
            } else {
                None::<T>
            }),
    {
        if index >= self.size {
            return None;
        }
        let actual = if self.size < self.capacity {
            index
        } else if index < self.capacity - self.head {
            self.head + index
        } else {
            index - (self.capacity - self.head)
        };
        Some(self.data[actual])
    }

    /// How many values the buffer currently holds.
    pub fn len(&self) -> (r: usize)
        requires
            self.wf(),
        ensures
            r == self@.len(),
    {
        self.size
    }

    /// Whether the buffer holds no values yet.
    pub fn is_empty(&self) -> (r: bool)
        requires
            self.wf(),
        ensures
            r == (self@.len() == 0),
    {
        self.size == 0
    }

    /// All held values in chronological order, oldest to newest.
    pub fn to_vec(&self) -> (r: Vec<T>)
        requires
            self.wf(),
        ensures
            r@ == self@,
    {
        let mut result: Vec<T> = Vec::new();
        let n = self.size;
        for i in 0..n
            invariant
                self.wf(),
                n == self.size,
                n <= self@.len(),
                result@ == self@.take(i as int),
        {
            match self.get(i) {
                Some(value) => result.push(value),
                None => {
                    proof {
                        assert(false);
                    }
                },
            }
            proof {
                assert(result@ =~= self@.take(i + 1));
            }
        }
        proof {
            assert(self@.take(n as int) =~= self@);
        }
        result
    }

    /// Direct access to the backing storage. While the buffer is filling
    /// this is the held values in order; once it is full it is the same
    /// values rotated, newest-first region last — a quirk kept from the
    /// buffer's role as a display sample source.
    pub fn as_slice(&self) -> (r: &[T])
        requires
            self.wf(),
        ensures
            self@.len() < self.spec_capacity() ==> r@ == self@,
            exists|k: int| 0 <= k <= self@.len() && r@ == self@.skip(k) + self@.take(k),
    {
        proof {
            if self.size < self.capacity {
                assert(self.data@ =~= self@.skip(0) + self@.take(0));
            } else {
                let h = self.head as int;
                let c = self.capacity as int;
                assert(self.data@ =~= self@.skip(c - h) + self@.take(c - h));
            }
        }
        self.data.as_slice()
    }
}

} // verus!
