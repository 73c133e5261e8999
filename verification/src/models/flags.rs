//! Where the data of a forecast came from.

use crate::error::{outcome, DecodeError, Failure};
use crate::extract::{
    coercions_fail_by_decoding, fails_by_decoding, field_fails_by_decoding, into_string,
    into_strings, lemma_agrees_at_start, next_optional, optional, string, strings, unfit,
    within_decoding, Trail,
};
use crate::value::{Json, ValueTree};
use vstd::prelude::*;

verus! {

/// Where the data of a forecast came from.
#[derive(Clone, Debug, PartialEq)]
pub struct Flags {
    /// The Dark Sky stations that were used.
    pub darksky_stations: Option<Vec<String>>,
    /// Present where Dark Sky's own stations could not be had.
    pub darksky_unavailable: Option<String>,
    /// The DataPoint stations that were used.
    pub datapoint_stations: Option<Vec<String>>,
    /// The ISD stations that were used.
    pub isd_stations: Option<Vec<String>>,
    /// The LAMP stations that were used.
    pub lamp_stations: Option<Vec<String>>,
    /// The METAR stations that were used.
    pub metar_stations: Option<Vec<String>>,
    /// The licence of the data of the Norwegian Meteorological Institute.
    pub metno_license: Option<String>,
    /// The sources of the data.
    pub sources: Option<Vec<String>>,
    /// The units that the answer is in.
    pub units: Option<String>,
}

/// The [`Flags`] as mathematics.
pub struct FlagsView {
    pub darksky_stations: Option<Seq<Seq<char>>>,
    pub darksky_unavailable: Option<Seq<char>>,
    pub datapoint_stations: Option<Seq<Seq<char>>>,
    pub isd_stations: Option<Seq<Seq<char>>>,
    pub lamp_stations: Option<Seq<Seq<char>>>,
    pub metar_stations: Option<Seq<Seq<char>>>,
    pub metno_license: Option<Seq<char>>,
    pub sources: Option<Seq<Seq<char>>>,
    pub units: Option<Seq<char>>,
}

impl View for Flags {
    type V = FlagsView;

    open spec fn view(&self) -> FlagsView {
        FlagsView {
            darksky_stations: self.darksky_stations.deep_view(),
            darksky_unavailable: self.darksky_unavailable.deep_view(),
            datapoint_stations: self.datapoint_stations.deep_view(),
            isd_stations: self.isd_stations.deep_view(),
            lamp_stations: self.lamp_stations.deep_view(),
            metar_stations: self.metar_stations.deep_view(),
            metno_license: self.metno_license.deep_view(),
            sources: self.sources.deep_view(),
            units: self.units.deep_view(),
        }
    }
}

impl DeepView for Flags {
    type V = FlagsView;

    open spec fn deep_view(&self) -> FlagsView {
        self@
    }
}

impl Flags {
    /// What a value decodes to: the `Flags` where it is an object whose every
    /// declared field decodes, and else the failure of the first declared field
    /// that does not. Fields that are not declared are passed over.
    pub open spec fn decoded(j: Json) -> Result<FlagsView, Failure> {
        match j {
            Json::Object(m) => {
                let darksky_stations = optional(m, "darksky_stations"@, |j: Json| strings(j));
                let darksky_unavailable = optional(m, "darksky_unavailable"@, |j: Json| string(j));
                let datapoint_stations = optional(m, "datapoint_stations"@, |j: Json| strings(j));
                let isd_stations = optional(m, "isd_stations"@, |j: Json| strings(j));
                let lamp_stations = optional(m, "lamp_stations"@, |j: Json| strings(j));
                let metar_stations = optional(m, "metar_stations"@, |j: Json| strings(j));
                let metno_license = optional(m, "metno_license"@, |j: Json| string(j));
                let sources = optional(m, "sources"@, |j: Json| strings(j));
                let units = optional(m, "units"@, |j: Json| string(j));
                if darksky_stations is Err {
                    Err(darksky_stations->Err_0)
                } else if darksky_unavailable is Err {
                    Err(darksky_unavailable->Err_0)
                } else if datapoint_stations is Err {
                    Err(datapoint_stations->Err_0)
                } else if isd_stations is Err {
                    Err(isd_stations->Err_0)
                } else if lamp_stations is Err {
                    Err(lamp_stations->Err_0)
                } else if metar_stations is Err {
                    Err(metar_stations->Err_0)
                } else if metno_license is Err {
                    Err(metno_license->Err_0)
                } else if sources is Err {
                    Err(sources->Err_0)
                } else if units is Err {
                    Err(units->Err_0)
                } else {
                    Ok(
                        FlagsView {
                            darksky_stations: darksky_stations->Ok_0,
                            darksky_unavailable: darksky_unavailable->Ok_0,
                            datapoint_stations: datapoint_stations->Ok_0,
                            isd_stations: isd_stations->Ok_0,
                            lamp_stations: lamp_stations->Ok_0,
                            metar_stations: metar_stations->Ok_0,
                            metno_license: metno_license->Ok_0,
                            sources: sources->Ok_0,
                            units: units->Ok_0,
                        },
                    )
                }
            },
            _ => Err(unfit("object"@, j)),
        }
    }

    /// The place of a field's name in the order in which the fields are
    /// declared.
    #[verifier::opaque]
    closed spec fn rank(name: Seq<char>) -> int {
        if name == "darksky_stations"@ {
            0
        } else if name == "darksky_unavailable"@ {
            1
        } else if name == "datapoint_stations"@ {
            2
        } else if name == "isd_stations"@ {
            3
        } else if name == "lamp_stations"@ {
            4
        } else if name == "metar_stations"@ {
            5
        } else if name == "metno_license"@ {
            6
        } else if name == "sources"@ {
            7
        } else if name == "units"@ {
            8
        } else {
            9
        }
    }

    /// Every declared field has its own place in the order: no two share a name.
    proof fn lemma_rank()
        ensures
            Self::rank("darksky_stations"@) == 0,
            Self::rank("darksky_unavailable"@) == 1,
            Self::rank("datapoint_stations"@) == 2,
            Self::rank("isd_stations"@) == 3,
            Self::rank("lamp_stations"@) == 4,
            Self::rank("metar_stations"@) == 5,
            Self::rank("metno_license"@) == 6,
            Self::rank("sources"@) == 7,
            Self::rank("units"@) == 8,
    {
        reveal(Flags::rank);
        reveal_strlit("darksky_stations");
        reveal_strlit("darksky_unavailable");
        reveal_strlit("datapoint_stations");
        reveal_strlit("isd_stations");
        reveal_strlit("lamp_stations");
        reveal_strlit("metar_stations");
        reveal_strlit("metno_license");
        reveal_strlit("sources");
        reveal_strlit("units");
        assert("darksky_stations"@ =~= seq![
            'd', 'a', 'r', 'k', 's', 'k', 'y', '_', 's', 't', 'a', 't', 'i', 'o', 'n', 's',
        ]);
        assert("darksky_unavailable"@ =~= seq![
            'd', 'a', 'r', 'k', 's', 'k', 'y', '_', 'u', 'n', 'a', 'v', 'a', 'i', 'l', 'a', 'b',
            'l', 'e',
        ]);
        assert("datapoint_stations"@ =~= seq![
            'd', 'a', 't', 'a', 'p', 'o', 'i', 'n', 't', '_', 's', 't', 'a', 't', 'i', 'o', 'n',
            's',
        ]);
        assert("isd_stations"@ =~= seq![
            'i', 's', 'd', '_', 's', 't', 'a', 't', 'i', 'o', 'n', 's',
        ]);
        assert("lamp_stations"@ =~= seq![
            'l', 'a', 'm', 'p', '_', 's', 't', 'a', 't', 'i', 'o', 'n', 's',
        ]);
        assert("metar_stations"@ =~= seq![
            'm', 'e', 't', 'a', 'r', '_', 's', 't', 'a', 't', 'i', 'o', 'n', 's',
        ]);
        assert("metno_license"@ =~= seq![
            'm', 'e', 't', 'n', 'o', '_', 'l', 'i', 'c', 'e', 'n', 's', 'e',
        ]);
        assert("sources"@ =~= seq!['s', 'o', 'u', 'r', 'c', 'e', 's']);
        assert("units"@ =~= seq!['u', 'n', 'i', 't', 's']);
    }

    /// Decodes the `Flags` from an object, field by field in the order of
    /// their declaration. The first field that fails ends the work, and its
    /// failure is the result.
    pub fn decode(value: ValueTree) -> (r: Result<Flags, DecodeError>)
        ensures
            outcome(r) == Self::decoded(value@),
    {
        match value {
            ValueTree::Object(mut node) => {
                let ghost trail = Trail {
                    origin: node@,
                    rank: |name: Seq<char>| Self::rank(name),
                };
                proof {
                    Self::lemma_rank();
                    lemma_agrees_at_start(trail);
                }
                let darksky_stations = next_optional(
                    &mut node,
                    "darksky_stations",
                    into_strings,
                    Ghost(trail),
                    Ghost(|j: Json| strings(j)),
                )?;
                let darksky_unavailable = next_optional(
                    &mut node,
                    "darksky_unavailable",
                    into_string,
                    Ghost(trail),
                    Ghost(|j: Json| string(j)),
                )?;
                let datapoint_stations = next_optional(
                    &mut node,
                    "datapoint_stations",
                    into_strings,
                    Ghost(trail),
                    Ghost(|j: Json| strings(j)),
                )?;
                let isd_stations = next_optional(
                    &mut node,
                    "isd_stations",
                    into_strings,
                    Ghost(trail),
                    Ghost(|j: Json| strings(j)),
                )?;
                let lamp_stations = next_optional(
                    &mut node,
                    "lamp_stations",
                    into_strings,
                    Ghost(trail),
                    Ghost(|j: Json| strings(j)),
                )?;
                let metar_stations = next_optional(
                    &mut node,
                    "metar_stations",
                    into_strings,
                    Ghost(trail),
                    Ghost(|j: Json| strings(j)),
                )?;
                let metno_license = next_optional(
                    &mut node,
                    "metno_license",
                    into_string,
                    Ghost(trail),
                    Ghost(|j: Json| string(j)),
                )?;
                let sources = next_optional(
                    &mut node,
                    "sources",
                    into_strings,
                    Ghost(trail),
                    Ghost(|j: Json| strings(j)),
                )?;
                let units = next_optional(
                    &mut node,
                    "units",
                    into_string,
                    Ghost(trail),
                    Ghost(|j: Json| string(j)),
                )?;
                Ok(
                    Flags {
                        darksky_stations,
                        darksky_unavailable,
                        datapoint_stations,
                        isd_stations,
                        lamp_stations,
                        metar_stations,
                        metno_license,
                        sources,
                        units,
                    },
                )
            },
            other => Err(DecodeError::TypeMismatch(String::new(), "object".to_owned(), other)),
        }
    }

    /// Decoding the `Flags` fails only by decoding: with a missing field or a
    /// mismatch, and never with the failure of a collaborator.
    pub proof fn fails_by_decoding()
        ensures
            forall|j: Json| within_decoding(#[trigger] Self::decoded(j)),
            fails_by_decoding(|j: Json| Self::decoded(j)),
    {
        coercions_fail_by_decoding();
        assert forall|j: Json| within_decoding(#[trigger] Self::decoded(j)) by {
            if let Json::Object(m) = j {
                field_fails_by_decoding(m, "darksky_stations"@, |j: Json| strings(j));
                field_fails_by_decoding(m, "darksky_unavailable"@, |j: Json| string(j));
                field_fails_by_decoding(m, "datapoint_stations"@, |j: Json| strings(j));
                field_fails_by_decoding(m, "isd_stations"@, |j: Json| strings(j));
                field_fails_by_decoding(m, "lamp_stations"@, |j: Json| strings(j));
                field_fails_by_decoding(m, "metar_stations"@, |j: Json| strings(j));
                field_fails_by_decoding(m, "metno_license"@, |j: Json| string(j));
                field_fails_by_decoding(m, "sources"@, |j: Json| strings(j));
                field_fails_by_decoding(m, "units"@, |j: Json| string(j));
            }
        }
    }
}

} // verus!
