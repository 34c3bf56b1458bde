use oauth1_twitter::v1::{
    check_create_tweet, check_image_category, check_segment_index, error_from_v2,
    media_id_strings, parse_other_v2, segment_bounds, CreateTweetResponseBodyOkJson,
    EndpointError, MediaCategory, MediaProcessingInfoState, TokenSecrets, User,
};
use oauth1_twitter::v2::{
    url_for_user_by_id, url_for_user_by_username, ResponseBodyErrJson, TweetsCreateResponseBody,
    TweetsCreateResponseBodyData,
};
use oauth1_twitter::EndpointRet;

#[test]
fn user_urls() {
    assert_eq!(url_for_user_by_id(2244994945), "https://api.twitter.com/2/users/2244994945");
    assert_eq!(url_for_user_by_username("TwitterDev"), "https://api.twitter.com/2/users/by/username/TwitterDev");
}

#[test]
fn validations() {
    assert!(check_image_category(&MediaCategory::TweetImage).is_ok());
    assert!(check_image_category(&MediaCategory::DmImage).is_ok());
    assert!(matches!(check_image_category(&MediaCategory::TweetVideo), Err(EndpointError::ValidateFailed(_))));
    assert!(check_segment_index(999).is_ok());
    assert!(matches!(check_segment_index(1000), Err(EndpointError::ValidateFailed(_))));
    assert!(matches!(check_create_tweet(None, None), Err(EndpointError::ValidateFailed(_))));
    assert!(check_create_tweet(Some("hi"), None).is_ok());
    assert!(check_create_tweet(None, Some(&vec![1])).is_ok());
}

#[test]
fn segments() {
    assert_eq!(segment_bounds(0, 100), (0, 100, true));
    assert_eq!(segment_bounds(1, 12_000_000), (5_242_880, 10_485_760, false));
    assert_eq!(segment_bounds(2, 12_000_000), (10_485_760, 12_000_000, true));
    assert_eq!(segment_bounds(1, 10_485_760), (5_242_880, 10_485_760, true));
}

#[test]
fn media_names_and_states() {
    assert_eq!(MediaCategory::TweetGif.to_string(), "tweet_gif");
    assert_eq!(MediaCategory::from_name("dm_video"), MediaCategory::DmVideo);
    assert_eq!(MediaCategory::from_name("amplify_video"), MediaCategory::Other("amplify_video".to_owned()));
    assert!(MediaProcessingInfoState::Succeeded.is_finished());
    assert!(MediaProcessingInfoState::Failed.is_finished());
    assert!(!MediaProcessingInfoState::InProgress.is_finished());
    assert_eq!(media_id_strings(&vec![7, 1234567890123]), vec!["7".to_owned(), "1234567890123".to_owned()]);
}

#[test]
fn v2_bridging() {
    let e = error_from_v2(ResponseBodyErrJson {
        problem_type: "t".to_owned(),
        title: "Forbidden".to_owned(),
        detail: "nope".to_owned(),
    });
    assert_eq!(e.errors.len(), 1);
    assert_eq!(e.errors[0].code, 0);
    assert_eq!(e.errors[0].message, "nope");

    let body = br#"{"title":"Forbidden","detail":"nope","type":"about:blank"}"#.to_vec();
    match parse_other_v2::<()>(403, body) {
        EndpointRet::Other((403, Ok(f))) => assert_eq!(f.errors[0].message, "nope"),
        other => panic!("{other:?}"),
    }
    match parse_other_v2::<()>(500, b"oops".to_vec()) {
        EndpointRet::Other((500, Err(raw))) => assert_eq!(raw, b"oops".to_vec()),
        other => panic!("{other:?}"),
    }

    let created = CreateTweetResponseBodyOkJson::from_v2(&TweetsCreateResponseBody {
        data: TweetsCreateResponseBodyData { id: 1445880548472328192, text: None },
    });
    assert_eq!(created.id_string, "1445880548472328192");

    let user = User::try_from_v2(oauth1_twitter::v2::User {
        id: Some(2244994945),
        name: Some("Twitter Dev".to_owned()),
        username: Some("TwitterDev".to_owned()),
        profile_image_url: Some("https://pbs.twimg.com/x.png".to_owned()),
    })
    .unwrap();
    assert_eq!(user.id_str, "2244994945");
    assert_eq!(user.screen_name, "TwitterDev");
    let missing = User::try_from_v2(oauth1_twitter::v2::User {
        id: Some(1),
        name: None,
        username: None,
        profile_image_url: None,
    });
    assert_eq!(missing.unwrap_err(), "username missing");
}

#[test]
fn token_secrets_compose() {
    let s = TokenSecrets::new("ck", "cs", "t", "ts").secrets();
    assert_eq!(s.consumer_key, "ck");
    assert_eq!(s.token, Some(("t".to_owned(), "ts".to_owned())));
}
