use market_core::actor::account::AccountImage;
use market_core::actor::account::SetUserProfileRequest;
use market_core::actor::account::UserAccountPageResponse;
use market_core::actor::ActorName;
use market_core::actor::ActorNameError;
use market_core::media::mime::Mime;
use market_core::media::mime::MimeAudio;
use market_core::media::mime::MimeImage;
use market_core::media::mime::MimeVideo;
use market_core::media::MediaData;
use market_core::media::MediaSrc;
use market_core::unit::Currency;
use market_core::util::string::adjust_whitespaces;
use market_core::util::string::remove_whitespace;

#[test]
fn test_actor_name_bounds() {
    assert!(ActorName::new("x".repeat(50).as_str()).is_ok());
    assert_eq!(
        ActorName::new("x".repeat(51).as_str()),
        Err(ActorNameError::TooLong)
    );
}

#[test]
fn test_account_image() {
    assert!(AccountImage::NoImage.is_none());
    let image = AccountImage::CID("bafy123".to_string());
    assert!(!image.is_none());
    assert_eq!(image.to_url(), "https://ipfs.io/ipfs/bafy123");
    assert_eq!(AccountImage::NoImage.to_url(), "");
}

#[test]
fn test_profile_update() {
    let mut page = UserAccountPageResponse {
        name: "old".to_string(),
        birth_name: "old".to_string(),
        mail_address: "old@example.com".to_string(),
        image: AccountImage::NoImage,
    };
    let request = SetUserProfileRequest {
        name: "new".to_string(),
        birth_name: "newer".to_string(),
        mail_address: "new@example.com".to_string(),
        image: AccountImage::CID("bafy".to_string()),
    };
    assert!(!request.equal_to_response(page.clone()));
    page.update_with_request(&request);
    assert!(request.equal_to_response(page));
}

#[test]
fn test_media_builder() {
    let media = MediaData::builder()
        .url("https://example.com/a.png")
        .mime(Mime::Image(MimeImage::Png))
        .alt("a picture")
        .build();
    assert_eq!(media.src, MediaSrc::URL("https://example.com/a.png".to_string()));
    assert_eq!(media.mime.to_display_string(), "image/png");
    assert_eq!(media.alt.as_deref(), Some("a picture"));
    assert_eq!(media.src.into_string(), "https://example.com/a.png");
}

#[test]
fn test_mime_texts() {
    assert_eq!(Mime::Image(MimeImage::Svg).to_display_string(), "image/svg+xml");
    assert_eq!(Mime::Video(MimeVideo::Av1).to_display_string(), "video/AV1");
    assert_eq!(Mime::Audio(MimeAudio::Flac).to_display_string(), "audio/flac");
    assert_eq!(
        Mime::Other("application/pdf".to_string()).to_display_string(),
        "application/pdf"
    );
}

#[test]
fn test_currency_text() {
    assert_eq!(Currency::USD.to_display_string(), "USD");
    assert_eq!(Currency::FLOS.to_display_string(), "FLOS");
}

#[test]
fn test_whitespace_helpers() {
    assert_eq!(adjust_whitespaces(" a \t b \n c "), "a b c");
    assert_eq!(remove_whitespace(" a \t b \n c "), "abc");
}
