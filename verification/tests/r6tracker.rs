use pikadick::r6tracker::{
    ApiError, ApiResponse, InvalidApiResponseError, Platform, ProfileRequestError, Rank, profile_url,
};

fn api_error(code: &str, message: &str) -> ApiError {
    ApiError { code: code.to_string(), message: message.to_string() }
}

#[test]
fn empty_user() {
    assert_eq!(profile_url("", Platform::Pc).unwrap_err(), ProfileRequestError::EmptyUsername);
}

#[test]
fn profile_url_per_platform() {
    assert_eq!(
        profile_url("smack.jjfozzil", Platform::Pc).unwrap(),
        "https://api.tracker.gg/api/v2/r6siege/standard/profile/ubi/smack.jjfozzil?"
    );
    assert_eq!(
        profile_url("someone", Platform::Xbox).unwrap(),
        "https://api.tracker.gg/api/v2/r6siege/standard/profile/xbl/someone?"
    );
    assert_eq!(
        profile_url("someone", Platform::Ps4).unwrap(),
        "https://api.tracker.gg/api/v2/r6siege/standard/profile/psn/someone?"
    );
}

#[test]
fn api_error_is_missing_codes() {
    assert!(api_error("CollectorResultStatus::NotFound", "x").is_missing());
    assert!(api_error("CollectorResultStatus::NoData", "x").is_missing());
    assert!(!api_error("CollectorResultStatus::Other", "x").is_missing());
    assert!(!api_error("", "x").is_missing());
}

#[test]
fn invalid_user() {
    let missing = InvalidApiResponseError(vec![api_error("CollectorResultStatus::NotFound", "no user")]);
    assert!(missing.is_missing());
    let two = InvalidApiResponseError(vec![
        api_error("CollectorResultStatus::NotFound", "no user"),
        api_error("CollectorResultStatus::NoData", "no data"),
    ]);
    assert!(!two.is_missing());
    assert!(!InvalidApiResponseError(Vec::new()).is_missing());
    assert!(!InvalidApiResponseError(vec![api_error("RateLimited", "slow down")]).is_missing());
}

#[test]
fn error_texts() {
    let err = InvalidApiResponseError(vec![api_error("a", "first"), api_error("b", "second")]);
    assert_eq!(err.message(), "the api request failed due to the following: \n    first\n    second\n");
    assert_eq!(InvalidApiResponseError(Vec::new()).message(), "the api request failed due to the following: \n");
    assert_eq!(api_error("a", "boom").description(), "api error (boom)");
}

#[test]
fn response_is_valid_or_invalid() {
    let valid: ApiResponse<u32> = ApiResponse::Valid(7);
    assert_eq!(valid.into_result().unwrap(), 7);
    assert_eq!(ApiResponse::<u32>::Valid(7).take_valid(), Some(7));
    assert!(ApiResponse::<u32>::Valid(7).take_invalid().is_none());

    let invalid = || ApiResponse::<u32>::Invalid(InvalidApiResponseError(vec![api_error("c", "m")]));
    assert_eq!(invalid().into_result().unwrap_err().0[0].code, "c");
    assert!(invalid().take_valid().is_none());
    assert_eq!(invalid().take_invalid().unwrap().0.len(), 1);
}

#[test]
fn response_from_parts() {
    match ApiResponse::from_parts(Some(3u8), Some(vec![api_error("a", "b")])).unwrap() {
        ApiResponse::Valid(d) => assert_eq!(d, 3),
        ApiResponse::Invalid(_) => panic!("expected data"),
    }
    match ApiResponse::<u8>::from_parts(None, Some(vec![api_error("a", "b")])).unwrap() {
        ApiResponse::Valid(_) => panic!("expected errors"),
        ApiResponse::Invalid(e) => assert_eq!(e.0[0].message, "b"),
    }
    assert!(ApiResponse::<u8>::from_parts(None, None).is_none());
}

#[test]
fn rank_names() {
    assert_eq!(Rank::Unranked.name(), "Unranked");
    assert_eq!(Rank::CopperV.name(), "Copper V");
    assert_eq!(Rank::BronzeIII.name(), "Bronze III");
    assert_eq!(Rank::SilverI.name(), "Silver I");
    assert_eq!(Rank::GoldII.name(), "Gold II");
    assert_eq!(Rank::PlatinumIII.name(), "Platinum III");
    assert_eq!(Rank::Diamond.name(), "Diamond");
    assert_eq!(Rank::Champion.name(), "Champion");
}
