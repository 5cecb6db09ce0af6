//! The R6Tracker service model: platforms, the address of a profile,
//! API responses and their errors, and ranks.
use vstd::prelude::*;
use crate::text::str_eq;

verus! {

/// The platform a profile lives on.
#[derive(Debug, Clone, Copy, PartialEq, Eq, Structural)]
pub enum Platform {
    Pc,
    Xbox,
    Ps4,
}

/// The platform slug that the profile endpoint expects.
pub open spec fn platform_slug(platform: Platform) -> Seq<char> {
    match platform {
        Platform::Pc => "ubi"@,
        Platform::Xbox => "xbl"@,
        Platform::Ps4 => "psn"@,
    }
}

/// The error of a profile request that cannot be made.
#[derive(Debug, Clone, Copy, PartialEq, Eq, Structural)]
pub enum ProfileRequestError {
    /// The user name is empty.
    EmptyUsername,
}

/// The address of a profile on the tracker's API.
pub open spec fn profile_url_spec(name: Seq<char>, platform: Platform) -> Seq<char> {
    "https://api.tracker.gg/api/v2/r6siege/standard/profile/"@ + platform_slug(platform) + "/"@
        + name + "?"@
}

/// The address of the profile of `name` on `platform`; an empty name is refused.
pub fn profile_url(name: &str, platform: Platform) -> (r: Result<String, ProfileRequestError>)
    ensures
        name@.len() == 0 ==> r == Err::<String, ProfileRequestError>(ProfileRequestError::EmptyUsername),
        name@.len() > 0 ==> (r matches Ok(url) && url@ == profile_url_spec(name@, platform)),
{
    if name.is_empty() {
        return Err(ProfileRequestError::EmptyUsername);
    }
    let slug = match platform {
        Platform::Pc => "ubi",
        Platform::Xbox => "xbl",
        Platform::Ps4 => "psn",
    };
    let mut url = String::from_str("https://api.tracker.gg/api/v2/r6siege/standard/profile/");
    url.append(slug);
    url.append("/");
    url.append(name);
    url.append("?");
    Ok(url)
}

/// An error the API reports for a request.
#[derive(Debug)]
pub struct ApiError {
    /// The error code string.
    pub code: String,
    /// The error message.
    pub message: String,
}

/// Whether an error code says that there is no data for the user: the user
/// does not exist, or exists but has not played the game.
pub open spec fn is_missing_code(code: Seq<char>) -> bool {
    code == "CollectorResultStatus::NotFound"@ || code == "CollectorResultStatus::NoData"@
}

impl ApiError {
    /// Returns true if this is a missing error.
    pub fn is_missing(&self) -> (r: bool)
        ensures
            r == is_missing_code(self.code@),
    {
        str_eq(self.code.as_str(), "CollectorResultStatus::NotFound") || str_eq(
            self.code.as_str(),
            "CollectorResultStatus::NoData",
        )
    }

    /// The text this error is shown with: `api error (<message>)`.
    pub fn description(&self) -> (r: String)
        ensures
            r@ == "api error ("@ + self.message@ + ")"@,
    {
        let mut out = String::from_str("api error (");
        out.append(self.message.as_str());
        out.append(")");
        out
    }
}

/// The errors of a response that carries no data.
#[derive(Debug)]
pub struct InvalidApiResponseError(pub Vec<ApiError>);

/// The lines listing the messages of `errors`, each indented by four spaces.
pub open spec fn error_lines(errors: Seq<ApiError>) -> Seq<char>
    decreases errors.len(),
{
    if errors.len() == 0 {
        Seq::empty()
    } else {
        error_lines(errors.drop_last()) + "    "@ + errors.last().message@ + "\n"@
    }
}

impl InvalidApiResponseError {
    /// Whether the response says the user has no data: exactly one error, and
    /// that one is a missing error.
    pub open spec fn is_missing_spec(&self) -> bool {
        self.0@.len() == 1 && is_missing_code(self.0@[0].code@)
    }

    /// Returns true if this is a missing error.
    pub fn is_missing(&self) -> (r: bool)
        ensures
            r == self.is_missing_spec(),
    {
        if self.0.len() == 1 {
            self.0[0].is_missing()
        } else {
            false
        }
    }

    /// The text this error is shown with: a header line, then one line per message.
    pub fn message(&self) -> (r: String)
        ensures
            r@ == "the api request failed due to the following: \n"@ + error_lines(self.0@),
    {
        let mut out = String::from_str("the api request failed due to the following: \n");
        let mut i: usize = 0;
        while i < self.0.len()
            invariant
                i <= self.0@.len(),
                out@ == "the api request failed due to the following: \n"@ + error_lines(
                    self.0@.take(i as int),
                ),
            decreases self.0@.len() - i,
        {
            assert(self.0@.take(i + 1).drop_last() =~= self.0@.take(i as int));
            out.append("    ");
            out.append(self.0[i].message.as_str());
            out.append("\n");
            i = i + 1;
        }
        assert(self.0@.take(i as int) =~= self.0@);
        out
    }
}

/// A response of the profile API.
#[derive(Debug)]
pub enum ApiResponse<T> {
    /// A response that carries data.
    Valid(T),
    /// A response that carries errors in place of data.
    Invalid(InvalidApiResponseError),
}

impl<T> ApiResponse<T> {
    /// The data, for a valid response.
    pub open spec fn valid_data(self) -> Option<T> {
        match self {
            ApiResponse::Valid(data) => Some(data),
            ApiResponse::Invalid(_) => None,
        }
    }

    /// The errors, for an invalid response.
    pub open spec fn invalid_error(self) -> Option<InvalidApiResponseError> {
        match self {
            ApiResponse::Valid(_) => None,
            ApiResponse::Invalid(err) => Some(err),
        }
    }

    /// Builds a response out of the `data` and `errors` members of the
    /// response body: with data it is valid, else it is invalid when there
    /// is an error list, and it is no response at all when there is neither.
    pub fn from_parts(data: Option<T>, errors: Option<Vec<ApiError>>) -> (r: Option<ApiResponse<T>>)
        ensures
            data is Some ==> (r matches Some(resp) && resp.valid_data() == data),
            data is None && errors is Some ==> (r matches Some(resp) && resp.invalid_error()
                == Some(InvalidApiResponseError(errors->0))),
            data is None && errors is None ==> r is None,
    {
        match data {
            Some(data) => Some(ApiResponse::Valid(data)),
            None => match errors {
                Some(errors) => Some(ApiResponse::Invalid(InvalidApiResponseError(errors))),
                None => None,
            },
        }
    }

    /// Convert this into a `Result`.
    pub fn into_result(self) -> (r: Result<T, InvalidApiResponseError>)
        ensures
            match self {
                ApiResponse::Valid(data) => r == Ok::<T, InvalidApiResponseError>(data),
                ApiResponse::Invalid(err) => r == Err::<T, InvalidApiResponseError>(err),
            },
    {
        match self {
            ApiResponse::Valid(data) => Ok(data),
            ApiResponse::Invalid(err) => Err(err),
        }
    }

    /// Consume self and return the valid variant, or None.
    pub fn take_valid(self) -> (r: Option<T>)
        ensures
            r == self.valid_data(),
    {
        match self {
            ApiResponse::Valid(data) => Some(data),
            ApiResponse::Invalid(_) => None,
        }
    }

    /// Consume self and return the invalid variant, or None.
    pub fn take_invalid(self) -> (r: Option<InvalidApiResponseError>)
        ensures
            r == self.invalid_error(),
    {
        match self {
            ApiResponse::Valid(_) => None,
            ApiResponse::Invalid(err) => Some(err),
        }
    }
}

/// Every response is either valid or invalid, never both; `into_result` is
/// `Ok` exactly with the data `take_valid` gives, and `Err` exactly with the
/// errors `take_invalid` gives.
pub proof fn law_response_is_valid_or_invalid<T>(resp: ApiResponse<T>)
    ensures
        resp.valid_data() is Some != resp.invalid_error() is Some,
        resp.valid_data() is Some ==> resp == ApiResponse::<T>::Valid(resp.valid_data()->0),
        resp.invalid_error() is Some ==> resp == ApiResponse::<T>::Invalid(resp.invalid_error()->0),
{
}

/// An R6 Rank.
#[derive(Debug, Copy, Clone, PartialEq, Eq, Structural)]
pub enum Rank {
    Unranked,
    CopperV,
    CopperIV,
    CopperIII,
    CopperII,
    CopperI,
    BronzeV,
    BronzeIV,
    BronzeIII,
    BronzeII,
    BronzeI,
    SilverV,
    SilverIV,
    SilverIII,
    SilverII,
    SilverI,
    GoldIII,
    GoldII,
    GoldI,
    PlatinumIII,
    PlatinumII,
    PlatinumI,
    Diamond,
    Champion,
}

/// The display name of a rank.
pub open spec fn rank_name(rank: Rank) -> Seq<char> {
    match rank {
        Rank::Unranked => "Unranked"@,
        Rank::CopperV => "Copper V"@,
        Rank::CopperIV => "Copper IV"@,
        Rank::CopperIII => "Copper III"@,
        Rank::CopperII => "Copper II"@,
        Rank::CopperI => "Copper I"@,
        Rank::BronzeV => "Bronze V"@,
        Rank::BronzeIV => "Bronze IV"@,
        Rank::BronzeIII => "Bronze III"@,
        Rank::BronzeII => "Bronze II"@,
        Rank::BronzeI => "Bronze I"@,
        Rank::SilverV => "Silver V"@,
        Rank::SilverIV => "Silver IV"@,
        Rank::SilverIII => "Silver III"@,
        Rank::SilverII => "Silver II"@,
        Rank::SilverI => "Silver I"@,
        Rank::GoldIII => "Gold III"@,
        Rank::GoldII => "Gold II"@,
        Rank::GoldI => "Gold I"@,
        Rank::PlatinumIII => "Platinum III"@,
        Rank::PlatinumII => "Platinum II"@,
        Rank::PlatinumI => "Platinum I"@,
        Rank::Diamond => "Diamond"@,
        Rank::Champion => "Champion"@,
    }
}

/// The tier of a rank: its name without the division.
pub open spec fn rank_tier(rank: Rank) -> Seq<char> {
    match rank {
        Rank::Unranked => "Unranked"@,
        Rank::CopperV | Rank::CopperIV | Rank::CopperIII | Rank::CopperII | Rank::CopperI => "Copper"@,
        Rank::BronzeV | Rank::BronzeIV | Rank::BronzeIII | Rank::BronzeII | Rank::BronzeI => "Bronze"@,
        Rank::SilverV | Rank::SilverIV | Rank::SilverIII | Rank::SilverII | Rank::SilverI => "Silver"@,
        Rank::GoldIII | Rank::GoldII | Rank::GoldI => "Gold"@,
        Rank::PlatinumIII | Rank::PlatinumII | Rank::PlatinumI => "Platinum"@,
        Rank::Diamond => "Diamond"@,
        Rank::Champion => "Champion"@,
    }
}

/// The division of a rank within its tier (1 is the highest), or 0 for the
/// ranks that have none.
pub open spec fn rank_division(rank: Rank) -> nat {
    match rank {
        Rank::CopperV | Rank::BronzeV | Rank::SilverV => 5,
        Rank::CopperIV | Rank::BronzeIV | Rank::SilverIV => 4,
        Rank::CopperIII | Rank::BronzeIII | Rank::SilverIII | Rank::GoldIII | Rank::PlatinumIII => 3,
        Rank::CopperII | Rank::BronzeII | Rank::SilverII | Rank::GoldII | Rank::PlatinumII => 2,
        Rank::CopperI | Rank::BronzeI | Rank::SilverI | Rank::GoldI | Rank::PlatinumI => 1,
        _ => 0,
    }
}

/// A division as a roman numeral.
pub open spec fn roman_numeral(n: nat) -> Seq<char> {
    if n == 1 {
        "I"@
    } else if n == 2 {
        "II"@
    } else if n == 3 {
        "III"@
    } else if n == 4 {
        "IV"@
    } else {
        "V"@
    }
}

/// A rank's name is its tier, followed, for a rank with a division, by a
/// space and the division as a roman numeral (Gold III is "Gold III").
pub proof fn law_rank_name_parts(rank: Rank)
    ensures
        rank_division(rank) == 0 ==> rank_name(rank) == rank_tier(rank),
        rank_division(rank) > 0 ==> rank_name(rank) == rank_tier(rank) + " "@ + roman_numeral(rank_division(rank)),
{
    reveal_strlit(" ");
    reveal_strlit("I");
    reveal_strlit("II");
    reveal_strlit("III");
    reveal_strlit("IV");
    reveal_strlit("V");
    reveal_strlit("Copper");
    reveal_strlit("Bronze");
    reveal_strlit("Silver");
    reveal_strlit("Gold");
    reveal_strlit("Platinum");
    match rank {
        Rank::CopperV => { reveal_strlit("Copper V"); assert(rank_name(rank) =~= "Copper"@ + " "@ + "V"@); },
        Rank::CopperIV => { reveal_strlit("Copper IV"); assert(rank_name(rank) =~= "Copper"@ + " "@ + "IV"@); },
        Rank::CopperIII => { reveal_strlit("Copper III"); assert(rank_name(rank) =~= "Copper"@ + " "@ + "III"@); },
        Rank::CopperII => { reveal_strlit("Copper II"); assert(rank_name(rank) =~= "Copper"@ + " "@ + "II"@); },
        Rank::CopperI => { reveal_strlit("Copper I"); assert(rank_name(rank) =~= "Copper"@ + " "@ + "I"@); },
        Rank::BronzeV => { reveal_strlit("Bronze V"); assert(rank_name(rank) =~= "Bronze"@ + " "@ + "V"@); },
        Rank::BronzeIV => { reveal_strlit("Bronze IV"); assert(rank_name(rank) =~= "Bronze"@ + " "@ + "IV"@); },
        Rank::BronzeIII => { reveal_strlit("Bronze III"); assert(rank_name(rank) =~= "Bronze"@ + " "@ + "III"@); },
        Rank::BronzeII => { reveal_strlit("Bronze II"); assert(rank_name(rank) =~= "Bronze"@ + " "@ + "II"@); },
        Rank::BronzeI => { reveal_strlit("Bronze I"); assert(rank_name(rank) =~= "Bronze"@ + " "@ + "I"@); },
        Rank::SilverV => { reveal_strlit("Silver V"); assert(rank_name(rank) =~= "Silver"@ + " "@ + "V"@); },
        Rank::SilverIV => { reveal_strlit("Silver IV"); assert(rank_name(rank) =~= "Silver"@ + " "@ + "IV"@); },
        Rank::SilverIII => { reveal_strlit("Silver III"); assert(rank_name(rank) =~= "Silver"@ + " "@ + "III"@); },
        Rank::SilverII => { reveal_strlit("Silver II"); assert(rank_name(rank) =~= "Silver"@ + " "@ + "II"@); },
        Rank::SilverI => { reveal_strlit("Silver I"); assert(rank_name(rank) =~= "Silver"@ + " "@ + "I"@); },
        Rank::GoldIII => { reveal_strlit("Gold III"); assert(rank_name(rank) =~= "Gold"@ + " "@ + "III"@); },
        Rank::GoldII => { reveal_strlit("Gold II"); assert(rank_name(rank) =~= "Gold"@ + " "@ + "II"@); },
        Rank::GoldI => { reveal_strlit("Gold I"); assert(rank_name(rank) =~= "Gold"@ + " "@ + "I"@); },
        Rank::PlatinumIII => {
            reveal_strlit("Platinum III");
            assert(rank_name(rank) =~= "Platinum"@ + " "@ + "III"@);
        },
        Rank::PlatinumII => {
            reveal_strlit("Platinum II");
            assert(rank_name(rank) =~= "Platinum"@ + " "@ + "II"@);
        },
        Rank::PlatinumI => { reveal_strlit("Platinum I"); assert(rank_name(rank) =~= "Platinum"@ + " "@ + "I"@); },
        _ => {},
    }
}

/// Different ranks have different names.
#[verifier::rlimit(50)]
pub proof fn law_rank_names_distinct(a: Rank, b: Rank)
    requires
        a != b,
    ensures
        rank_name(a) != rank_name(b),
{
    reveal_strlit("Unranked");
    reveal_strlit("Copper V");
    reveal_strlit("Copper IV");
    reveal_strlit("Copper III");
    reveal_strlit("Copper II");
    reveal_strlit("Copper I");
    reveal_strlit("Bronze V");
    reveal_strlit("Bronze IV");
    reveal_strlit("Bronze III");
    reveal_strlit("Bronze II");
    reveal_strlit("Bronze I");
    reveal_strlit("Silver V");
    reveal_strlit("Silver IV");
    reveal_strlit("Silver III");
    reveal_strlit("Silver II");
    reveal_strlit("Silver I");
    reveal_strlit("Gold III");
    reveal_strlit("Gold II");
    reveal_strlit("Gold I");
    reveal_strlit("Platinum III");
    reveal_strlit("Platinum II");
    reveal_strlit("Platinum I");
    reveal_strlit("Diamond");
    reveal_strlit("Champion");
    let x = rank_name(a);
    let y = rank_name(b);
    assert(x.len() != y.len() || x[0] != y[0] || x[1] != y[1] || x[x.len() - 1] != y[y.len() - 1]);
}

impl Rank {
    /// Get a string rep of this rank.
    pub fn name(self) -> (r: &'static str)
        ensures
            r@ == rank_name(self),
    {
        match self {
            Rank::Unranked => "Unranked",
            Rank::CopperV => "Copper V",
            Rank::CopperIV => "Copper IV",
            Rank::CopperIII => "Copper III",
            Rank::CopperII => "Copper II",
            Rank::CopperI => "Copper I",
            Rank::BronzeV => "Bronze V",
            Rank::BronzeIV => "Bronze IV",
            Rank::BronzeIII => "Bronze III",
            Rank::BronzeII => "Bronze II",
            Rank::BronzeI => "Bronze I",
            Rank::SilverV => "Silver V",
            Rank::SilverIV => "Silver IV",
            Rank::SilverIII => "Silver III",
            Rank::SilverII => "Silver II",
            Rank::SilverI => "Silver I",
            Rank::GoldIII => "Gold III",
            Rank::GoldII => "Gold II",
            Rank::GoldI => "Gold I",
            Rank::PlatinumIII => "Platinum III",
            Rank::PlatinumII => "Platinum II",
            Rank::PlatinumI => "Platinum I",
            Rank::Diamond => "Diamond",
            Rank::Champion => "Champion",
        }
    }
}

} // verus!
