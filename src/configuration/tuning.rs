//! Tuning parameters of the VOC and NOx index algorithms.
use crate::codec::{decode, decoded, frame};
use crate::error::DataError;
use crate::util::{check_range, cites_violation, range_check};
use vstd::prelude::*;

verus! {

/// The values `(index_offset, learning_time_offset, learning_time_gain,
/// gating_max_durations, initial_standard_deviation, gain_factor)` of a tuning
/// block built from the given arguments, or the first bound they violate.
pub open spec fn tuning_check(
    index_offset: i16,
    learning_time_offset: i16,
    learning_time_gain: i16,
    gating_max_durations: i16,
    initial_standard_deviation: i16,
    gain_factor: i16,
) -> Result<Seq<i16>, DataError> {
    if range_check(index_offset as int, 1, 250, "VOC Index Offset", "") is Err {
        Err(range_check(index_offset as int, 1, 250, "VOC Index Offset", "")->Err_0)
    } else if range_check(learning_time_offset as int, 1, 1000, "VOC Learning Time Offset", "h") is Err {
        Err(range_check(learning_time_offset as int, 1, 1000, "VOC Learning Time Offset", "h")->Err_0)
    } else if range_check(learning_time_gain as int, 1, 1000, "VOC Learning Time Gain", "h") is Err {
        Err(range_check(learning_time_gain as int, 1, 1000, "VOC Learning Time Gain", "h")->Err_0)
    } else if range_check(gating_max_durations as int, 0, 3000, "VOC Gating Max Duration", "min") is Err {
        Err(range_check(gating_max_durations as int, 0, 3000, "VOC Gating Max Duration", "min")->Err_0)
    } else if range_check(initial_standard_deviation as int, 10, 5000, "VOC Initial Standard Deviation", "") is Err {
        Err(range_check(initial_standard_deviation as int, 10, 5000, "VOC Initial Standard Deviation", "")->Err_0)
    } else if range_check(gain_factor as int, 1, 1000, "VOC Gain Factor", "") is Err {
        Err(range_check(gain_factor as int, 1, 1000, "VOC Gain Factor", "")->Err_0)
    } else {
        Ok(
            seq![
                index_offset,
                learning_time_offset,
                learning_time_gain,
                gating_max_durations,
                initial_standard_deviation,
                gain_factor,
            ],
        )
    }
}

/// Whether all six values lie within their bounds.
pub open spec fn tuning_in_bounds(v: Seq<i16>) -> bool {
    &&& v.len() == 6
    &&& 1 <= v[0] <= 250
    &&& 1 <= v[1] <= 1000
    &&& 1 <= v[2] <= 1000
    &&& 0 <= v[3] <= 3000
    &&& 10 <= v[4] <= 5000
    &&& 1 <= v[5] <= 1000
}

/// The six tuning values carried by a reply, or why the reply is rejected;
/// received values are held to the same bounds as constructed ones.
pub open spec fn parse_tuning(data: Seq<u8>) -> Result<Seq<i16>, DataError> {
    match decoded(data, 18) {
        Ok(w) => tuning_check(
            w[0] as i16,
            w[1] as i16,
            w[2] as i16,
            w[3] as i16,
            w[4] as i16,
            w[5] as i16,
        ),
        Err(e) => Err(e),
    }
}

/// The words that carry tuning values on the wire.
pub open spec fn tuning_words(v: Seq<i16>) -> Seq<u16> {
    v.map_values(|x: i16| x as u16)
}

#[derive(Debug, PartialEq)]
struct Tuning {
    index_offset: i16,
    learning_time_offset: i16,
    learning_time_gain: i16,
    gating_max_durations: i16,
    initial_standard_deviation: i16,
    gain_factor: i16,
}

impl Tuning {
    #[verifier::type_invariant]
    spec fn in_bounds(self) -> bool {
        tuning_in_bounds(self.values())
    }

    closed spec fn values(self) -> Seq<i16> {
        seq![
            self.index_offset,
            self.learning_time_offset,
            self.learning_time_gain,
            self.gating_max_durations,
            self.initial_standard_deviation,
            self.gain_factor,
        ]
    }

    closed spec fn from_values(v: Seq<i16>) -> Tuning {
        Tuning {
            index_offset: v[0],
            learning_time_offset: v[1],
            learning_time_gain: v[2],
            gating_max_durations: v[3],
            initial_standard_deviation: v[4],
            gain_factor: v[5],
        }
    }

    closed spec fn spec_words(self) -> [u16; 6] {
        [
            self.index_offset as u16,
            self.learning_time_offset as u16,
            self.learning_time_gain as u16,
            self.gating_max_durations as u16,
            self.initial_standard_deviation as u16,
            self.gain_factor as u16,
        ]
    }

    fn new(
        index_offset: i16,
        learning_time_offset: i16,
        learning_time_gain: i16,
        gating_max_durations: i16,
        initial_standard_deviation: i16,
        gain_factor: i16,
    ) -> (r: Result<Tuning, DataError>)
        ensures
            match r {
                Ok(t) => tuning_check(
                    index_offset,
                    learning_time_offset,
                    learning_time_gain,
                    gating_max_durations,
                    initial_standard_deviation,
                    gain_factor,
                ) == Ok::<Seq<i16>, DataError>(t.values()),
                Err(e) => tuning_check(
                    index_offset,
                    learning_time_offset,
                    learning_time_gain,
                    gating_max_durations,
                    initial_standard_deviation,
                    gain_factor,
                ) == Err::<Seq<i16>, DataError>(e),
            },
    {
        if let Err(e) = check_range(index_offset as i32, 1, 250, "VOC Index Offset", "") {
            return Err(e);
        }
        if let Err(e) = check_range(
            learning_time_offset as i32,
            1,
            1000,
            "VOC Learning Time Offset",
            "h",
        ) {
            return Err(e);
        }
        if let Err(e) = check_range(learning_time_gain as i32, 1, 1000, "VOC Learning Time Gain", "h") {
            return Err(e);
        }
        if let Err(e) = check_range(
            gating_max_durations as i32,
            0,
            3000,
            "VOC Gating Max Duration",
            "min",
        ) {
            return Err(e);
        }
        if let Err(e) = check_range(
            initial_standard_deviation as i32,
            10,
            5000,
            "VOC Initial Standard Deviation",
            "",
        ) {
            return Err(e);
        }
        if let Err(e) = check_range(gain_factor as i32, 1, 1000, "VOC Gain Factor", "") {
            return Err(e);
        }
        let t = Tuning {
            index_offset,
            learning_time_offset,
            learning_time_gain,
            gating_max_durations,
            initial_standard_deviation,
            gain_factor,
        };
        proof {
            assert(t.values() =~= seq![
                index_offset,
                learning_time_offset,
                learning_time_gain,
                gating_max_durations,
                initial_standard_deviation,
                gain_factor,
            ]);
        }
        Ok(t)
    }

    fn parse(data: &[u8]) -> (r: Result<Tuning, DataError>)
        ensures
            match r {
                Ok(t) => parse_tuning(data@) == Ok::<Seq<i16>, DataError>(t.values()) && t
                    == Tuning::from_values(t.values()),
                Err(e) => parse_tuning(data@) == Err::<Seq<i16>, DataError>(e),
            },
    {
        match decode(data, 18) {
            Ok(w) => Tuning::new(
                w[0] as i16,
                w[1] as i16,
                w[2] as i16,
                w[3] as i16,
                w[4] as i16,
                w[5] as i16,
            ),
            Err(e) => Err(e),
        }
    }

    fn to_words(self) -> (r: [u16; 6])
        ensures
            r@ == tuning_words(self.values()),
            r == self.spec_words(),
    {
        let r: [u16; 6] = [
            self.index_offset as u16,
            self.learning_time_offset as u16,
            self.learning_time_gain as u16,
            self.gating_max_durations as u16,
            self.initial_standard_deviation as u16,
            self.gain_factor as u16,
        ];
        proof {
            assert(r@ =~= tuning_words(self.values()));
        }
        r
    }
}

/// Configuration of the VOC index algorithm.
#[derive(Debug, PartialEq)]
pub struct VocTuning(Tuning);

impl VocTuning {
    /// The six values: index offset, learning time offset, learning time gain,
    /// gating maximum duration, initial standard deviation and gain factor.
    pub closed spec fn values(self) -> Seq<i16> {
        self.0.values()
    }

    /// Builds a VOC index configuration:
    /// - `index_offset`: the index of typical conditions, 1 to 250 (100 by default);
    /// - `learning_time_offset`: hours over which the offset is estimated, 1 to 1,000 (12);
    /// - `learning_time_gain`: hours over which the gain is estimated, 1 to 1,000 (12);
    /// - `gating_max_durations`: minutes the estimator may freeze on a high index,
    ///   0 (off) to 3,000 (180);
    /// - `initial_standard_deviation`: 10 to 5,000 (50);
    /// - `gain_factor`: amplification of the index, 1 to 1,000 (230).
    pub fn new(
        index_offset: i16,
        learning_time_offset: i16,
        learning_time_gain: i16,
        gating_max_durations: i16,
        initial_standard_deviation: i16,
        gain_factor: i16,
    ) -> (r: Result<VocTuning, DataError>)
        ensures
            match r {
                Ok(t) => tuning_check(
                    index_offset,
                    learning_time_offset,
                    learning_time_gain,
                    gating_max_durations,
                    initial_standard_deviation,
                    gain_factor,
                ) == Ok::<Seq<i16>, DataError>(t.values()),
                Err(e) => tuning_check(
                    index_offset,
                    learning_time_offset,
                    learning_time_gain,
                    gating_max_durations,
                    initial_standard_deviation,
                    gain_factor,
                ) == Err::<Seq<i16>, DataError>(e),
            },
            r is Ok <==> (1 <= index_offset <= 250 && 1 <= learning_time_offset <= 1000 && 1
                <= learning_time_gain <= 1000 && 0 <= gating_max_durations <= 3000 && 10
                <= initial_standard_deviation <= 5000 && 1 <= gain_factor <= 1000),
            r matches Err(e) ==> cites_violation(e, index_offset as int) || cites_violation(
                e,
                learning_time_offset as int,
            ) || cites_violation(e, learning_time_gain as int) || cites_violation(
                e,
                gating_max_durations as int,
            ) || cites_violation(e, initial_standard_deviation as int) || cites_violation(
                e,
                gain_factor as int,
            ),
    {
        proof {
            lemma_tuning_bounds(
                index_offset,
                learning_time_offset,
                learning_time_gain,
                gating_max_durations,
                initial_standard_deviation,
                gain_factor,
            );
        }
        match Tuning::new(
            index_offset,
            learning_time_offset,
            learning_time_gain,
            gating_max_durations,
            initial_standard_deviation,
            gain_factor,
        ) {
            Ok(t) => Ok(VocTuning(t)),
            Err(e) => Err(e),
        }
    }
}

impl From<VocTuning> for [u16; 6] {
    /// The six words sent to the sensor.
    fn from(value: VocTuning) -> (r: [u16; 6])
        ensures
            r@ == tuning_words(value.values()),
    {
        value.0.to_words()
    }
}

impl vstd::std_specs::convert::FromSpecImpl<VocTuning> for [u16; 6] {
    open spec fn obeys_from_spec() -> bool {
        true
    }

    closed spec fn from_spec(value: VocTuning) -> [u16; 6] {
        value.0.spec_words()
    }
}

impl TryFrom<&[u8]> for VocTuning {
    type Error = DataError;

    /// Reads the VOC tuning parameters from a reply of six words.
    fn try_from(data: &[u8]) -> (r: Result<VocTuning, DataError>)
        ensures
            match r {
                Ok(t) => parse_tuning(data@) == Ok::<Seq<i16>, DataError>(t.values()),
                Err(e) => parse_tuning(data@) == Err::<Seq<i16>, DataError>(e),
            },
    {
        match Tuning::parse(data) {
            Ok(t) => Ok(VocTuning(t)),
            Err(e) => Err(e),
        }
    }
}

impl vstd::std_specs::convert::TryFromSpecImpl<&[u8]> for VocTuning {
    open spec fn obeys_try_from_spec() -> bool {
        true
    }

    closed spec fn try_from_spec(data: &[u8]) -> Result<VocTuning, DataError> {
        match parse_tuning(data@) {
            Ok(v) => Ok(VocTuning(Tuning::from_values(v))),
            Err(e) => Err(e),
        }
    }
}

impl Default for VocTuning {
    /// Index offset 100, learning times 12 h, gating 180 min, standard
    /// deviation 50, gain factor 230.
    fn default() -> (r: VocTuning)
        ensures
            r.values() == seq![100i16, 12, 12, 180, 50, 230],
    {
        let t = Tuning {
            index_offset: 100,
            learning_time_offset: 12,
            learning_time_gain: 12,
            gating_max_durations: 180,
            initial_standard_deviation: 50,
            gain_factor: 230,
        };
        proof {
            assert(t.values() =~= seq![100i16, 12, 12, 180, 50, 230]);
        }
        VocTuning(t)
    }
}

/// Configuration of the NOx index algorithm.
#[derive(Debug, PartialEq)]
pub struct NoxTuning(Tuning);

impl NoxTuning {
    /// The six values: index offset, learning time offset, learning time gain,
    /// gating maximum duration, initial standard deviation and gain factor.
    pub closed spec fn values(self) -> Seq<i16> {
        self.0.values()
    }

    /// Builds a NOx index configuration; the initial standard deviation is
    /// fixed at 50:
    /// - `index_offset`: the index of typical conditions, 1 to 250 (1 by default);
    /// - `learning_time_offset`: hours over which the offset is estimated, 1 to 1,000 (12);
    /// - `learning_time_gain`: hours over which the gain is estimated, 1 to 1,000 (12);
    /// - `gating_max_durations`: minutes the estimator may freeze on a high index,
    ///   0 (off) to 3,000 (720);
    /// - `gain_factor`: amplification of the index, 1 to 1,000 (230).
    pub fn new(
        index_offset: i16,
        learning_time_offset: i16,
        learning_time_gain: i16,
        gating_max_durations: i16,
        gain_factor: i16,
    ) -> (r: Result<NoxTuning, DataError>)
        ensures
            match r {
                Ok(t) => tuning_check(
                    index_offset,
                    learning_time_offset,
                    learning_time_gain,
                    gating_max_durations,
                    50,
                    gain_factor,
                ) == Ok::<Seq<i16>, DataError>(t.values()),
                Err(e) => tuning_check(
                    index_offset,
                    learning_time_offset,
                    learning_time_gain,
                    gating_max_durations,
                    50,
                    gain_factor,
                ) == Err::<Seq<i16>, DataError>(e),
            },
            r is Ok <==> (1 <= index_offset <= 250 && 1 <= learning_time_offset <= 1000 && 1
                <= learning_time_gain <= 1000 && 0 <= gating_max_durations <= 3000 && 1
                <= gain_factor <= 1000),
            r matches Err(e) ==> cites_violation(e, index_offset as int) || cites_violation(
                e,
                learning_time_offset as int,
            ) || cites_violation(e, learning_time_gain as int) || cites_violation(
                e,
                gating_max_durations as int,
            ) || cites_violation(e, gain_factor as int),
    {
        proof {
            lemma_tuning_bounds(
                index_offset,
                learning_time_offset,
                learning_time_gain,
                gating_max_durations,
                50,
                gain_factor,
            );
        }
        match Tuning::new(
            index_offset,
            learning_time_offset,
            learning_time_gain,
            gating_max_durations,
            50,
            gain_factor,
        ) {
            Ok(t) => Ok(NoxTuning(t)),
            Err(e) => Err(e),
        }
    }
}

impl From<NoxTuning> for [u16; 6] {
    /// The six words sent to the sensor.
    fn from(value: NoxTuning) -> (r: [u16; 6])
        ensures
            r@ == tuning_words(value.values()),
    {
        value.0.to_words()
    }
}

impl vstd::std_specs::convert::FromSpecImpl<NoxTuning> for [u16; 6] {
    open spec fn obeys_from_spec() -> bool {
        true
    }

    closed spec fn from_spec(value: NoxTuning) -> [u16; 6] {
        value.0.spec_words()
    }
}

impl TryFrom<&[u8]> for NoxTuning {
    type Error = DataError;

    /// Reads the NOx tuning parameters from a reply of six words.
    fn try_from(data: &[u8]) -> (r: Result<NoxTuning, DataError>)
        ensures
            match r {
                Ok(t) => parse_tuning(data@) == Ok::<Seq<i16>, DataError>(t.values()),
                Err(e) => parse_tuning(data@) == Err::<Seq<i16>, DataError>(e),
            },
    {
        match Tuning::parse(data) {
            Ok(t) => Ok(NoxTuning(t)),
            Err(e) => Err(e),
        }
    }
}

impl vstd::std_specs::convert::TryFromSpecImpl<&[u8]> for NoxTuning {
    open spec fn obeys_try_from_spec() -> bool {
        true
    }

    closed spec fn try_from_spec(data: &[u8]) -> Result<NoxTuning, DataError> {
        match parse_tuning(data@) {
            Ok(v) => Ok(NoxTuning(Tuning::from_values(v))),
            Err(e) => Err(e),
        }
    }
}

impl Default for NoxTuning {
    /// Index offset 1, learning times 12 h, gating 720 min, standard deviation
    /// 50, gain factor 230.
    fn default() -> (r: NoxTuning)
        ensures
            r.values() == seq![1i16, 12, 12, 720, 50, 230],
    {
        let t = Tuning {
            index_offset: 1,
            learning_time_offset: 12,
            learning_time_gain: 12,
            gating_max_durations: 720,
            initial_standard_deviation: 50,
            gain_factor: 230,
        };
        proof {
            assert(t.values() =~= seq![1i16, 12, 12, 720, 50, 230]);
        }
        NoxTuning(t)
    }
}

/// Building a tuning block, sending its words and reading them back as a reply
/// gives back the values it was built from.
#[verifier::spinoff_prover]
#[verifier::rlimit(60)]
pub proof fn lemma_tuning_round_trip(
    index_offset: i16,
    learning_time_offset: i16,
    learning_time_gain: i16,
    gating_max_durations: i16,
    initial_standard_deviation: i16,
    gain_factor: i16,
)
    requires
        tuning_check(
            index_offset,
            learning_time_offset,
            learning_time_gain,
            gating_max_durations,
            initial_standard_deviation,
            gain_factor,
        ) is Ok,
    ensures
        ({
            let built = tuning_check(
                index_offset,
                learning_time_offset,
                learning_time_gain,
                gating_max_durations,
                initial_standard_deviation,
                gain_factor,
            );
            parse_tuning(frame(tuning_words(built->Ok_0))) == built
        }),
{
    let values = seq![
        index_offset,
        learning_time_offset,
        learning_time_gain,
        gating_max_durations,
        initial_standard_deviation,
        gain_factor,
    ];
    lemma_tuning_check_in_bounds(values);
    let w = tuning_words(values);
    crate::codec::lemma_decode_encode(0, w);
    assert(decoded(frame(w), 18) == Ok::<Seq<u16>, DataError>(w));
    assert forall|i: int| 0 <= i < 6 implies (#[trigger] w[i]) as i16 == values[i] by {
        let x = values[i];
        assert(0 <= x ==> (x as u16) as i16 == x) by (bit_vector);
    }
    assert(tuning_check(
        w[0] as i16,
        w[1] as i16,
        w[2] as i16,
        w[3] as i16,
        w[4] as i16,
        w[5] as i16,
    ) == tuning_check(values[0], values[1], values[2], values[3], values[4], values[5]));
}

/// Building a tuning block from six arguments succeeds exactly when each lies
/// within its bounds; otherwise the error gives bounds that one of them
/// violates.
pub proof fn lemma_tuning_bounds(
    index_offset: i16,
    learning_time_offset: i16,
    learning_time_gain: i16,
    gating_max_durations: i16,
    initial_standard_deviation: i16,
    gain_factor: i16,
)
    ensures
        ({
            let r = tuning_check(
                index_offset,
                learning_time_offset,
                learning_time_gain,
                gating_max_durations,
                initial_standard_deviation,
                gain_factor,
            );
            &&& r is Ok <==> (1 <= index_offset <= 250 && 1 <= learning_time_offset <= 1000 && 1
                <= learning_time_gain <= 1000 && 0 <= gating_max_durations <= 3000 && 10
                <= initial_standard_deviation <= 5000 && 1 <= gain_factor <= 1000)
            &&& r matches Err(e) ==> cites_violation(e, index_offset as int) || cites_violation(
                e,
                learning_time_offset as int,
            ) || cites_violation(e, learning_time_gain as int) || cites_violation(
                e,
                gating_max_durations as int,
            ) || cites_violation(e, initial_standard_deviation as int) || cites_violation(
                e,
                gain_factor as int,
            )
        }),
{
}

/// Building a tuning block succeeds exactly when all six values are in bounds,
/// and then keeps them unchanged; otherwise the error gives the bounds of a
/// value that lies outside them.
pub proof fn lemma_tuning_check_in_bounds(v: Seq<i16>)
    requires
        v.len() == 6,
    ensures
        tuning_check(v[0], v[1], v[2], v[3], v[4], v[5]) is Ok <==> tuning_in_bounds(v),
        tuning_in_bounds(v) ==> tuning_check(v[0], v[1], v[2], v[3], v[4], v[5]) == Ok::<
            Seq<i16>,
            DataError,
        >(v),
        !tuning_in_bounds(v) ==> exists|i: int|
            0 <= i < 6 && cites_violation(
                tuning_check(v[0], v[1], v[2], v[3], v[4], v[5])->Err_0,
                #[trigger] v[i] as int,
            ),
{
    assert(seq![v[0], v[1], v[2], v[3], v[4], v[5]] =~= v);
    let e = tuning_check(v[0], v[1], v[2], v[3], v[4], v[5]);
    if !(1 <= v[0] <= 250) {
        assert(cites_violation(e->Err_0, v[0] as int));
    } else if !(1 <= v[1] <= 1000) {
        assert(cites_violation(e->Err_0, v[1] as int));
    } else if !(1 <= v[2] <= 1000) {
        assert(cites_violation(e->Err_0, v[2] as int));
    } else if !(0 <= v[3] <= 3000) {
        assert(cites_violation(e->Err_0, v[3] as int));
    } else if !(10 <= v[4] <= 5000) {
        assert(cites_violation(e->Err_0, v[4] as int));
    } else if !(1 <= v[5] <= 1000) {
        assert(cites_violation(e->Err_0, v[5] as int));
    }
}

} // verus!
