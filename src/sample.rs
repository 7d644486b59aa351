use vstd::prelude::*;

verus! {

/// One IQ sample, each component held as its centred numerator: the
/// normalised value of a component `c` is `c / 127`, so a raw byte `b` gives
/// `b - 127`, in `[-127, 128]`.
#[derive(Clone, Copy, Debug, PartialEq, Eq, Structural)]
pub struct Sample {
    pub re: i16,
    pub im: i16,
}

/// The centred numerator of a raw byte.
pub open spec fn centred(b: u8) -> int {
    b as int - 127
}

/// The sample made of a real byte and an imaginary byte.
pub open spec fn sample_of(re: u8, im: u8) -> Sample {
    Sample { re: centred(re) as i16, im: centred(im) as i16 }
}

/// The samples of an interleaved block: byte `2k` is the real part and byte
/// `2k + 1` the imaginary part of sample `k`.
pub open spec fn samples_of(data: Seq<u8>) -> Seq<Sample> {
    Seq::new(data.len() / 2, |k: int| sample_of(data[2 * k], data[2 * k + 1]))
}

impl Sample {
    /// A sample whose components both lie in the range a byte can give.
    pub open spec fn in_range(self) -> bool {
        -127 <= self.re <= 128 && -127 <= self.im <= 128
    }
}

/// Centres one byte: `b - 127`.
pub fn center(b: u8) -> (r: i16)
    ensures
        r as int == centred(b),
        -127 <= r <= 128,
{
    b as i16 - 127
}

/// Converts an interleaved block of bytes into samples, preserving order.
pub fn data_to_samples(data: Vec<u8>) -> (r: Vec<Sample>)
    requires
        data@.len() % 2 == 0,
    ensures
        r@ == samples_of(data@),
        forall|k: int| 0 <= k < r@.len() ==> (#[trigger] r@[k]).in_range(),
{
    let len: usize = data.len();
    let n: usize = len / 2;
    let mut out: Vec<Sample> = Vec::with_capacity(n);
    let mut k: usize = 0;
    while k < n
        invariant
            len == data@.len(),
            n == data@.len() / 2,
            data@.len() % 2 == 0,
            k <= n,
            out@.len() == k,
            forall|j: int| 0 <= j < k ==> out@[j] == sample_of(data@[2 * j], data@[2 * j + 1]),
        decreases n - k,
    {
        assert(2 * k + 1 < data@.len());
        let s = Sample { re: center(data[2 * k]), im: center(data[2 * k + 1]) };
        out.push(s);
        k = k + 1;
    }
    assert(out@ =~= samples_of(data@));
    out
}

} // verus!
