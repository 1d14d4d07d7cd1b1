//! Product name and serial number: short ASCII strings.
use crate::codec::{check_deserialization, reply_check};
use crate::error::DataError;
use vstd::prelude::*;

verus! {

/// The bytes of a reply with every third (checksum) byte left out.
pub open spec fn text_bytes(data: Seq<u8>) -> Seq<u8> {
    Seq::new(data.len() / 3 * 2, |j: int| data[3 * (j / 2) + j % 2])
}

/// The prefix of `p` up to and including its first null byte; all of `p`
/// where it holds none.
pub open spec fn up_to_null(p: Seq<u8>) -> Seq<u8>
    decreases p.len(),
{
    if p.len() == 0 {
        p
    } else if p[0] == 0 {
        seq![0u8]
    } else {
        seq![p[0]] + up_to_null(p.drop_first())
    }
}

/// Whether every byte of `s` is ASCII.
pub open spec fn all_ascii(s: Seq<u8>) -> bool {
    forall|j: int| 0 <= j < s.len() ==> #[trigger] s[j] < 128
}

/// The string carried by a reply of sixteen words: the data bytes up to and
/// including the first null byte, or all 32 of them; a non-ASCII byte among
/// them rejects the reply.
pub open spec fn parse_text(data: Seq<u8>) -> Result<Seq<u8>, DataError> {
    match reply_check(data, 48) {
        Err(e) => Err(e),
        Ok(()) => if all_ascii(up_to_null(text_bytes(data))) {
            Ok(up_to_null(text_bytes(data)))
        } else {
            Err(DataError::NotASCIIString)
        },
    }
}

proof fn lemma_up_to_null_prefix(p: Seq<u8>, i: int)
    requires
        0 <= i <= p.len(),
        forall|j: int| 0 <= j < i ==> p[j] != 0,
    ensures
        up_to_null(p) == p.take(i) + up_to_null(p.skip(i)),
    decreases i,
{
    if i > 0 {
        lemma_up_to_null_prefix(p.drop_first(), i - 1);
        assert(p.drop_first().take(i - 1) =~= p.take(i).drop_first());
        assert(p.drop_first().skip(i - 1) =~= p.skip(i));
        assert(p.take(i) =~= seq![p[0]] + p.take(i).drop_first());
        assert(seq![p[0]] + (p.take(i).drop_first() + up_to_null(p.skip(i))) =~= p.take(i)
            + up_to_null(p.skip(i)));
    } else {
        assert(p.skip(0) =~= p);
        assert(p.take(0) + up_to_null(p) =~= up_to_null(p));
    }
}

/// `t` filled up to 32 bytes with null bytes.
spec fn padded(t: Seq<u8>) -> Seq<u8> {
    t + Seq::new((32 - t.len()) as nat, |i: int| 0u8)
}

/// A null-terminated ASCII string of at most 32 bytes.
#[derive(Clone, Copy)]
struct SmallString {
    name: [u8; 32],
    len: usize,
}

impl SmallString {
    #[verifier::type_invariant]
    spec fn well_formed(self) -> bool {
        &&& self.len <= 32
        &&& self.name@ == padded(self.text())
    }

    spec fn text(self) -> Seq<u8> {
        self.name@.take(self.len as int)
    }

    spec fn from_text(t: Seq<u8>) -> SmallString {
        SmallString { name: choose|a: [u8; 32]| a@ == padded(t), len: t.len() as usize }
    }

    proof fn lemma_from_text(self)
        requires
            self.len <= 32,
            self.name@ == padded(self.text()),
        ensures
            self == SmallString::from_text(self.text()),
    {
        let a = choose|a: [u8; 32]| a@ == padded(self.text());
        assert(a@ =~= self.name@);
        assert(a == self.name);
    }

    fn get_buffer(&self) -> (r: &[u8])
        ensures
            r@ == self.text(),
    {
        proof {
            use_type_invariant(self);
        }
        self.name.as_slice().split_at(self.len).0
    }

    fn parse(data: &[u8]) -> (r: Result<SmallString, DataError>)
        ensures
            match r {
                Ok(s) => parse_text(data@) == Ok::<Seq<u8>, DataError>(s.text()) && s
                    == SmallString::from_text(s.text()),
                Err(e) => parse_text(data@) == Err::<Seq<u8>, DataError>(e),
            },
    {
        match check_deserialization(data, 48) {
            Ok(()) => {},
            Err(e) => return Err(e),
        }
        let ghost p = text_bytes(data@);
        let mut name: [u8; 32] = [0; 32];
        let mut j: usize = 0;
        while j < 32
            invariant
                j <= 32,
                data@.len() == 48,
                p == text_bytes(data@),
                p.len() == 32,
                reply_check(data@, 48) is Ok,
                forall|k: int| 0 <= k < j ==> p[k] != 0 && p[k] < 128,
                name@.take(j as int) == p.take(j as int),
                forall|k: int| j <= k < 32 ==> name@[k] == 0,
            decreases 32 - j,
        {
            let c = data[3 * (j / 2) + j % 2];
            assert(c == p[j as int]);
            if c >= 128 {
                proof {
                    lemma_up_to_null_prefix(p, j as int);
                    assert(up_to_null(p)[j as int] == c);
                }
                return Err(DataError::NotASCIIString);
            }
            name[j] = c;
            assert(name@.take(j + 1) =~= p.take(j + 1));
            if c == 0 {
                proof {
                    lemma_up_to_null_prefix(p, j as int);
                    assert(up_to_null(p) =~= p.take(j + 1));
                }
                assert(name@ =~= padded(name@.take(j + 1)));
                let s = SmallString { name, len: j + 1 };
                proof {
                    s.lemma_from_text();
                }
                return Ok(s);
            }
            j = j + 1;
        }
        proof {
            lemma_up_to_null_prefix(p, 32);
            assert(p.skip(32) =~= Seq::<u8>::empty());
            assert(up_to_null(p) =~= p.take(32));
        }
        assert(name@ =~= padded(name@.take(32)));
        let s = SmallString { name, len: 32 };
        proof {
            s.lemma_from_text();
        }
        Ok(s)
    }
}

/// The product name of the sensor, in ASCII.
#[derive(Clone, Copy)]
pub struct ProductName(SmallString);

impl ProductName {
    /// The bytes of the name, up to and including its null terminator if it
    /// has one.
    pub closed spec fn text(self) -> Seq<u8> {
        self.0.text()
    }

    /// The bytes of the name, up to and including its null terminator if it
    /// has one.
    pub fn get_name_buffer(&self) -> (r: &[u8])
        ensures
            r@ == self.text(),
    {
        self.0.get_buffer()
    }
}

impl TryFrom<&[u8]> for ProductName {
    type Error = DataError;

    /// Reads the product name from a reply of sixteen words.
    fn try_from(data: &[u8]) -> (r: Result<ProductName, DataError>)
        ensures
            match r {
                Ok(s) => parse_text(data@) == Ok::<Seq<u8>, DataError>(s.text()),
                Err(e) => parse_text(data@) == Err::<Seq<u8>, DataError>(e),
            },
    {
        match SmallString::parse(data) {
            Ok(s) => Ok(ProductName(s)),
            Err(e) => Err(e),
        }
    }
}

impl vstd::std_specs::convert::TryFromSpecImpl<&[u8]> for ProductName {
    open spec fn obeys_try_from_spec() -> bool {
        true
    }

    closed spec fn try_from_spec(data: &[u8]) -> Result<ProductName, DataError> {
        match parse_text(data@) {
            Ok(t) => Ok(ProductName(SmallString::from_text(t))),
            Err(e) => Err(e),
        }
    }
}

/// The serial number of the sensor, in ASCII.
#[derive(Clone, Copy)]
pub struct SerialNumber(SmallString);

impl SerialNumber {
    /// The bytes of the serial number, up to and including its null
    /// terminator if it has one.
    pub closed spec fn text(self) -> Seq<u8> {
        self.0.text()
    }

    /// The bytes of the serial number, up to and including its null
    /// terminator if it has one.
    pub fn get_serial_buffer(&self) -> (r: &[u8])
        ensures
            r@ == self.text(),
    {
        self.0.get_buffer()
    }
}

impl TryFrom<&[u8]> for SerialNumber {
    type Error = DataError;

    /// Reads the serial number from a reply of sixteen words.
    fn try_from(data: &[u8]) -> (r: Result<SerialNumber, DataError>)
        ensures
            match r {
                Ok(s) => parse_text(data@) == Ok::<Seq<u8>, DataError>(s.text()),
                Err(e) => parse_text(data@) == Err::<Seq<u8>, DataError>(e),
            },
    {
        match SmallString::parse(data) {
            Ok(s) => Ok(SerialNumber(s)),
            Err(e) => Err(e),
        }
    }
}

impl vstd::std_specs::convert::TryFromSpecImpl<&[u8]> for SerialNumber {
    open spec fn obeys_try_from_spec() -> bool {
        true
    }

    closed spec fn try_from_spec(data: &[u8]) -> Result<SerialNumber, DataError> {
        match parse_text(data@) {
            Ok(t) => Ok(SerialNumber(SmallString::from_text(t))),
            Err(e) => Err(e),
        }
    }
}

} // verus!
