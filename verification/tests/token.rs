use show_me::errors::ShowMeErrors;
use show_me::token::assertion_from;
use show_me::token::exchange_form;
use show_me::token::expiry_after;
use show_me::token::first_claims;
use show_me::token::fresh_nonce;
use show_me::token::get_usable_token;
use show_me::token::is_refresh_due;
use show_me::token::key_from;
use show_me::token::nonce_from;
use show_me::token::nonce_of;
use show_me::token::update_exp;
use show_me::token::Credential;
use show_me::token::Payload;
use show_me::token::Token;
use show_me::token::TokenOutcome;
use show_me::token::TokenStep;
use show_me::token::FIFTEEN_MIN;
use show_me::token::THREE_MIN;

fn claims(exp: i64) -> Payload {
    Payload {
        iss: "sa-1".to_string(),
        sub: "sa-1".to_string(),
        aud: "https://idp.example/am/oauth2/access_token".to_string(),
        exp,
        jti: "first".to_string(),
    }
}

fn url_safe(bytes: &[u8]) -> String {
    openssl::base64::encode_block(bytes)
        .replace('+', "-")
        .replace('/', "_")
        .trim_end_matches('=')
        .to_string()
}

fn private_key_text() -> String {
    let rsa = openssl::rsa::Rsa::generate(2048).unwrap();
    format!(
        "{{\"kty\":\"RSA\",\"n\":\"{}\",\"e\":\"AQAB\",\"d\":\"{}\",\"p\":\"{}\",\"q\":\"{}\",\"dp\":\"{}\",\"dq\":\"{}\",\"qi\":\"{}\"}}",
        url_safe(&rsa.n().to_vec()),
        url_safe(&rsa.d().to_vec()),
        url_safe(&rsa.p().unwrap().to_vec()),
        url_safe(&rsa.q().unwrap().to_vec()),
        url_safe(&rsa.dmp1().unwrap().to_vec()),
        url_safe(&rsa.dmq1().unwrap().to_vec()),
        url_safe(&rsa.iqmp().unwrap().to_vec()),
    )
}

fn public_key_text() -> String {
    let rsa = openssl::rsa::Rsa::generate(2048).unwrap();
    format!("{{\"kty\":\"RSA\",\"n\":\"{}\",\"e\":\"AQAB\"}}", url_safe(&rsa.n().to_vec()))
}

#[test]
fn update_exp_replaces_only_the_expiry() {
    let updated = update_exp(claims(10), 99);
    assert_eq!(updated, claims(99));
}

#[test]
fn refresh_is_due_when_now_plus_margin_reaches_expiry() {
    assert!(is_refresh_due(940, 60, 1000));
    assert!(is_refresh_due(941, 60, 1000));
    assert!(!is_refresh_due(939, 60, 1000));
    assert!(is_refresh_due(i64::MAX, i64::MAX, i64::MAX));
    assert!(!is_refresh_due(i64::MIN, 0, 0));
}

#[test]
fn expiry_is_now_plus_lifetime_held_to_the_range() {
    assert_eq!(expiry_after(1000, 899), 1899);
    assert_eq!(expiry_after(i64::MAX - 5, 899), i64::MAX);
    assert_eq!(expiry_after(i64::MIN + 5, -899), i64::MIN);
    assert_eq!(expiry_after(0, FIFTEEN_MIN), 899);
}

#[test]
fn the_first_caller_exchanges_and_the_second_waits() {
    // Two callers arrive one second before expiry with a margin of sixty.
    let mut credential = Credential::new(claims(1000), 60, 900);
    let first = get_usable_token(&mut credential, 100, "n0".to_string());
    assert!(matches!(first, TokenStep::Exchange { .. }));
    assert!(matches!(credential.complete(Ok("old".to_string()), 101), TokenOutcome::Fresh { .. }));
    assert_eq!(credential.expiry(), 1000);

    let a = get_usable_token(&mut credential, 999, "n1".to_string());
    let b = get_usable_token(&mut credential, 999, "n2".to_string());
    let expected = Payload { exp: 1899, jti: "n1".to_string(), ..claims(0) };
    assert_eq!(a, TokenStep::Exchange { payload: Payload { ..claims_like(&expected) } });
    assert_eq!(b, TokenStep::Wait);
    assert!(credential.is_refreshing());

    let done = credential.complete(Ok("new".to_string()), 1000);
    match done {
        TokenOutcome::Fresh { token, payload } => {
            assert_eq!(token, "new");
            assert_eq!(payload, expected);
        }
        other => panic!("unexpected outcome {:?}", other),
    }
    assert!(!credential.is_refreshing());

    let a = get_usable_token(&mut credential, 1000, "n3".to_string());
    let b = get_usable_token(&mut credential, 1000, "n4".to_string());
    let ready = TokenStep::Ready { token: "new".to_string(), payload: claims_like(&expected) };
    assert_eq!(a, ready);
    assert_eq!(b, ready);
    assert_eq!(credential.current_token(), Some("new".to_string()));
    assert_eq!(credential.expiry(), 1899);
}

fn claims_like(p: &Payload) -> Payload {
    Payload {
        iss: p.iss.clone(),
        sub: p.sub.clone(),
        aud: p.aud.clone(),
        exp: p.exp,
        jti: p.jti.clone(),
    }
}

#[test]
fn a_failed_exchange_hands_back_the_prior_token_while_it_is_valid() {
    let mut credential = Credential::new(claims(0), 60, 900);
    assert!(matches!(
        get_usable_token(&mut credential, 100, "n0".to_string()),
        TokenStep::Exchange { .. }
    ));
    credential.complete(Ok("prior".to_string()), 100);
    assert_eq!(credential.expiry(), 1000);

    // Due at 940, still valid until 1000.
    assert!(matches!(
        get_usable_token(&mut credential, 950, "n1".to_string()),
        TokenStep::Exchange { .. }
    ));
    let outcome = credential.complete(Err(ShowMeErrors::PingApiError("down".to_string())), 960);
    match outcome {
        TokenOutcome::Stale { token, payload, error } => {
            assert_eq!(token, "prior");
            assert_eq!(payload.exp, 1000);
            assert_eq!(payload.jti, "n0");
            assert!(matches!(error, ShowMeErrors::PingApiError(_)));
        }
        other => panic!("unexpected outcome {:?}", other),
    }
    assert_eq!(credential.current_token(), Some("prior".to_string()));
    assert_eq!(credential.expiry(), 1000);
    assert!(!credential.is_refreshing());

    // The next caller that finds the token due tries again.
    assert!(matches!(
        get_usable_token(&mut credential, 961, "n2".to_string()),
        TokenStep::Exchange { .. }
    ));
    // At expiry the prior token no longer helps.
    let outcome = credential.complete(Err(ShowMeErrors::PingApiError("down".to_string())), 1000);
    assert!(matches!(outcome, TokenOutcome::Failed { error: ShowMeErrors::PingApiError(_) }));
    assert_eq!(credential.current_token(), Some("prior".to_string()));
}

#[test]
fn a_failed_first_exchange_is_an_error() {
    let mut credential = Credential::with_defaults(claims(0));
    assert_eq!(credential.current_token(), None);
    assert!(!credential.is_usable(-1_000_000));
    assert!(matches!(
        get_usable_token(&mut credential, 5, "n".to_string()),
        TokenStep::Exchange { .. }
    ));
    let outcome = credential.complete(Err(ShowMeErrors::PingApiError("down".to_string())), 6);
    let result = outcome.into_result();
    assert!(matches!(result, Err(ShowMeErrors::PingApiError(_))));
    assert_eq!(credential.current_token(), None);
}

#[test]
fn completing_without_an_exchange_changes_nothing() {
    let mut credential = Credential::new(claims(500), 60, 900);
    let outcome = credential.complete(Ok("stray".to_string()), 10);
    assert!(matches!(outcome, TokenOutcome::Failed { error: ShowMeErrors::TokenDefault(_) }));
    assert_eq!(credential.current_token(), None);
    assert_eq!(credential.expiry(), 500);
    let outcome = credential.complete(Err(ShowMeErrors::ParsingUiPath), 10);
    assert!(matches!(outcome, TokenOutcome::Failed { error: ShowMeErrors::ParsingUiPath }));
}

#[test]
fn defaults_are_three_and_fifteen_minutes() {
    assert_eq!(THREE_MIN, 180);
    assert_eq!(FIFTEEN_MIN, 899);
    let mut credential = Credential::with_defaults(claims(0));
    match get_usable_token(&mut credential, 1_000, "n".to_string()) {
        TokenStep::Exchange { payload } => assert_eq!(payload.exp, 1_899),
        other => panic!("unexpected step {:?}", other),
    }
    credential.complete(Ok("t".to_string()), 1_000);
    assert!(credential.is_usable(1_718));
    assert!(!credential.is_usable(1_719));
}

#[test]
fn outcomes_turn_into_results() {
    let fresh = TokenOutcome::Fresh { token: "t".to_string(), payload: claims(1) };
    assert_eq!(fresh.into_result().unwrap(), ("t".to_string(), claims(1)));
    let stale = TokenOutcome::Stale {
        token: "s".to_string(),
        payload: claims(2),
        error: ShowMeErrors::ParsingUiPath,
    };
    assert_eq!(stale.into_result().unwrap(), ("s".to_string(), claims(2)));
    let failed = TokenOutcome::Failed { error: ShowMeErrors::NoLogsFound("x".to_string()) };
    assert!(matches!(failed.into_result(), Err(ShowMeErrors::NoLogsFound(_))));
}

#[test]
fn polling_asks_on_the_system_clock() {
    let mut credential = Credential::with_defaults(claims(0));
    let step = credential.poll().unwrap();
    match step {
        TokenStep::Exchange { payload } => {
            assert_eq!(payload.iss, "sa-1");
            assert_eq!(payload.jti.len(), 20);
            assert!(payload.exp > 1_700_000_000);
        }
        other => panic!("unexpected step {:?}", other),
    }
    assert_eq!(credential.poll().unwrap(), TokenStep::Wait);
    credential.complete(Ok("t".to_string()), 0);
    match credential.poll().unwrap() {
        TokenStep::Ready { token, .. } => assert_eq!(token, "t"),
        other => panic!("unexpected step {:?}", other),
    }
}

#[test]
fn the_exchange_form_holds_four_fields_in_order() {
    let form = exchange_form("a.b.c".to_string());
    assert_eq!(
        form,
        vec![
            ("client_id".to_string(), "service-account".to_string()),
            (
                "grant_type".to_string(),
                "urn:ietf:params:oauth:grant-type:jwt-bearer".to_string()
            ),
            ("assertion".to_string(), "a.b.c".to_string()),
            ("scope".to_string(), "fr:idm:* fr:am:*".to_string()),
        ]
    );
}

#[test]
fn a_nonce_is_the_base64_text_of_its_bytes() {
    assert_eq!(nonce_of(&vec![0u8; 15]), "AAAAAAAAAAAAAAAAAAAA");
    assert_eq!(nonce_of(&vec![b'M', b'a', b'n']), "TWFu");
    assert_eq!(nonce_of(&vec![b'M', b'a']), "TWE=");
    assert_eq!(nonce_of(&vec![]), "");
}

#[test]
fn fresh_nonces_are_twenty_characters_and_differ() {
    let a = fresh_nonce().unwrap();
    let b = fresh_nonce().unwrap();
    assert_eq!(a.len(), 20);
    assert_eq!(b.len(), 20);
    assert_ne!(a, b);
}

#[test]
fn a_token_is_set_up_from_a_private_key() {
    let key = private_key_text();
    let (token, payload) = Token::new(
        "sa-1".to_string(),
        "https://idp.example".to_string(),
        &key,
        1_700_000_000,
        "nonce".to_string(),
    )
    .unwrap();
    assert_eq!(token.dom, "https://idp.example");
    assert_eq!(token.domain(), "https://idp.example");
    assert_eq!(token.audience(), "https://idp.example/am/oauth2/access_token");
    assert_eq!(token.exp_date, 1_700_000_899);
    assert_eq!(token.expiry(), 1_700_000_899);
    assert_eq!(
        payload,
        Payload {
            iss: "sa-1".to_string(),
            sub: "sa-1".to_string(),
            aud: "https://idp.example/am/oauth2/access_token".to_string(),
            exp: 1_700_000_899,
            jti: "nonce".to_string(),
        }
    );
    assert_eq!(token.new_or_update_exp(1_700_000_718), (false, 1_700_000_899));
    assert_eq!(token.new_or_update_exp(1_700_000_719), (true, 1_700_001_618));
    assert_eq!(token.new_or_update_exp_now().0, true);

    let early = Token::new("sa".to_string(), "d".to_string(), &key, 5, "n".to_string()).unwrap();
    assert_eq!(early.0.exp_date, 904);
    assert_eq!(early.1.exp, 904);
}

#[test]
fn an_assertion_carries_the_claims_in_order_and_verifies() {
    let key = private_key_text();
    let (token, _) = Token::new(
        "sa-1".to_string(),
        "https://idp.example".to_string(),
        &key,
        1_700_000_000,
        "nonce".to_string(),
    )
    .unwrap();
    let payload = Payload {
        iss: "sa-1".to_string(),
        sub: "sa-1".to_string(),
        aud: "aud".to_string(),
        exp: 4_000_000_000,
        jti: "j".to_string(),
    };
    let jwt = token.assertion(&payload).unwrap();
    let parts: Vec<&str> = jwt.split('.').collect();
    assert_eq!(parts.len(), 3);
    // {"typ":"JWT","alg":"RS256"}
    assert_eq!(parts[0], "eyJ0eXAiOiJKV1QiLCJhbGciOiJSUzI1NiJ9");
    let expected_claims =
        "{\"iss\":\"sa-1\",\"sub\":\"sa-1\",\"aud\":\"aud\",\"exp\":4000000000,\"jti\":\"j\"}";
    assert_eq!(parts[1], url_safe(expected_claims.as_bytes()));

    let jwk = jsonwebkey::JsonWebKey::from_slice(&key).unwrap();
    let mut validation = jsonwebtoken::Validation::new(jsonwebtoken::Algorithm::RS256);
    validation.validate_exp = false;
    let decoded = jsonwebtoken::decode::<serde_json::Value>(
        &jwt,
        &jwk.key.to_public().unwrap().to_decoding_key(),
        &validation,
    )
    .unwrap();
    assert_eq!(decoded.claims["jti"], "j");
    assert_eq!(decoded.claims["exp"], 4_000_000_000i64);
}

#[test]
fn a_token_needs_a_key_that_can_sign() {
    let not_json = Token::new("s".to_string(), "d".to_string(), "nonsense", 0, "n".to_string());
    assert!(matches!(not_json, Err(ShowMeErrors::TokenCreateToken(_))));
    // A public key has a PEM form, but its first signature fails.
    let public = public_key_text();
    let no_private = Token::new("s".to_string(), "d".to_string(), &public, 0, "n".to_string());
    assert!(matches!(no_private, Err(ShowMeErrors::TokenCreateKey(_))));
    // A symmetric key has no PEM form.
    let symmetric = "{\"kty\":\"oct\",\"k\":\"c2VjcmV0\"}";
    match Token::new("s".to_string(), "d".to_string(), symmetric, 0, "n".to_string()) {
        Err(ShowMeErrors::TokenDefault(what)) => assert_eq!(what, "KEY_FILE"),
        _ => panic!("a symmetric key cannot sign with RS256"),
    }
}

fn signature_failure() -> jsonwebtoken::errors::Error {
    jsonwebtoken::errors::ErrorKind::InvalidRsaKey("no key").into()
}

#[test]
fn the_first_claims_name_the_service_account_and_the_token_endpoint() {
    assert_eq!(
        first_claims("sa".to_string(), "https://idp.example", 1_700_000_000, "n".to_string()),
        Payload {
            iss: "sa".to_string(),
            sub: "sa".to_string(),
            aud: "https://idp.example/am/oauth2/access_token".to_string(),
            exp: 1_700_000_899,
            jti: "n".to_string(),
        }
    );
    assert_eq!(first_claims("sa".to_string(), "", -7, "".to_string()).exp, 892);
    assert_eq!(first_claims("sa".to_string(), "", i64::MAX, "".to_string()).exp, i64::MAX);
    assert_eq!(first_claims("sa".to_string(), "", 900, "".to_string()).aud, "/am/oauth2/access_token");
}

#[test]
fn a_key_file_yields_its_signing_key_or_the_failure() {
    let unread = key_from(Err(jsonwebkey::Error::MismatchedAlgorithm));
    assert!(matches!(
        unread,
        Err(ShowMeErrors::TokenCreateToken(jsonwebkey::Error::MismatchedAlgorithm))
    ));
    match key_from(Ok(Err(jsonwebkey::ConversionError::NotAsymmetric))) {
        Err(ShowMeErrors::TokenDefault(what)) => assert_eq!(what, "KEY_FILE"),
        _ => panic!("a key without a PEM form is no signing key"),
    }
    assert_eq!(key_from(Ok(Ok("pem".to_string()))).unwrap(), "pem");
}

#[test]
fn a_signature_yields_the_assertion_or_the_failure() {
    assert_eq!(assertion_from(Ok("a.b.c".to_string())).unwrap(), "a.b.c");
    match assertion_from(Err(signature_failure())) {
        Err(ShowMeErrors::TokenCreateKey(e)) => assert_eq!(e, signature_failure()),
        other => panic!("unexpected assertion {:?}", other),
    }
}

#[test]
fn a_token_is_proven_by_its_first_signature() {
    let key = private_key_text();
    let (token, payload) =
        Token::new("sa".to_string(), "d".to_string(), &key, 5, "n".to_string()).unwrap();
    let (token, payload) = Token::proven(token, payload, Ok("x.y.z".to_string())).unwrap();
    assert_eq!(token.dom, "d");
    assert_eq!(payload.exp, 904);
    match Token::proven(token, payload, Err(signature_failure())) {
        Err(ShowMeErrors::TokenCreateKey(e)) => assert_eq!(e, signature_failure()),
        _ => panic!("a failed signature proves nothing"),
    }
}

#[test]
fn a_draw_yields_its_base64_text_or_the_failure() {
    assert_eq!(nonce_from(Ok(vec![255u8, 254, 253])).unwrap(), "//79");
    assert!(matches!(
        nonce_from(Err(openssl::error::ErrorStack::get())),
        Err(ShowMeErrors::TokenOpenSsl(_))
    ));
}

#[test]
fn the_same_key_and_claims_give_the_same_assertion() {
    let key = private_key_text();
    let (token, payload) =
        Token::new("sa".to_string(), "d".to_string(), &key, 5, "n".to_string()).unwrap();
    let first = token.assertion(&payload).unwrap();
    let again = token.assertion(&payload).unwrap();
    assert_eq!(first, again);
    // The same key read anew signs alike.
    let (twin, _) = Token::new("sa".to_string(), "d".to_string(), &key, 5, "n".to_string()).unwrap();
    assert_eq!(twin.assertion(&payload).unwrap(), first);
    // Other claims or another key give another assertion.
    let later = update_exp(claims_like(&payload), 6);
    assert_ne!(token.assertion(&later).unwrap(), first);
    let (other, _) =
        Token::new("sa".to_string(), "d".to_string(), &private_key_text(), 5, "n".to_string())
            .unwrap();
    assert_ne!(other.assertion(&payload).unwrap(), first);
}

#[test]
fn a_token_that_comes_after_its_assertion_expired_is_not_handed_out() {
    let mut credential = Credential::new(claims(0), 60, 900);
    assert!(matches!(
        get_usable_token(&mut credential, 100, "n0".to_string()),
        TokenStep::Exchange { .. }
    ));
    // Ordered at 100 for 900 seconds, answered at 5000.
    match credential.complete(Ok("late".to_string()), 5000) {
        TokenOutcome::Failed { error: ShowMeErrors::TokenDefault(what) } => {
            assert_eq!(what, "access_token")
        }
        other => panic!("unexpected outcome {:?}", other),
    }
    assert_eq!(credential.current_token(), None);
    assert!(!credential.is_refreshing());
    // At the very second of expiry it is late too; one second before it is not.
    get_usable_token(&mut credential, 100, "n1".to_string());
    assert!(matches!(
        credential.complete(Ok("late".to_string()), 1000),
        TokenOutcome::Failed { .. }
    ));
    get_usable_token(&mut credential, 100, "n2".to_string());
    assert!(matches!(
        credential.complete(Ok("timely".to_string()), 999),
        TokenOutcome::Fresh { .. }
    ));
    assert_eq!(credential.current_token(), Some("timely".to_string()));
}

#[test]
fn an_empty_token_counts_as_a_failed_exchange() {
    let mut credential = Credential::new(claims(0), 60, 900);
    get_usable_token(&mut credential, 100, "n0".to_string());
    assert!(matches!(
        credential.complete(Ok(String::new()), 101),
        TokenOutcome::Failed { error: ShowMeErrors::TokenDefault(_) }
    ));
    assert_eq!(credential.current_token(), None);

    get_usable_token(&mut credential, 100, "n1".to_string());
    credential.complete(Ok("prior".to_string()), 101);
    assert!(matches!(
        get_usable_token(&mut credential, 950, "n2".to_string()),
        TokenStep::Exchange { .. }
    ));
    match credential.complete(Ok(String::new()), 960) {
        TokenOutcome::Stale { token, error: ShowMeErrors::TokenDefault(what), .. } => {
            assert_eq!(token, "prior");
            assert_eq!(what, "access_token");
        }
        other => panic!("unexpected outcome {:?}", other),
    }
    assert_eq!(credential.current_token(), Some("prior".to_string()));
    assert_eq!(credential.expiry(), 1000);
}

#[test]
fn a_negative_margin_counts_as_none() {
    let mut credential = Credential::new(claims(0), -100, 900);
    get_usable_token(&mut credential, 100, "n0".to_string());
    credential.complete(Ok("t".to_string()), 100);
    assert!(credential.is_usable(999));
    assert!(!credential.is_usable(1000));
    assert!(!credential.is_usable(1050));
}

#[test]
fn a_caller_whose_clock_finds_the_token_fresh_need_not_wait() {
    let mut credential = Credential::new(claims(0), 60, 900);
    get_usable_token(&mut credential, 100, "n0".to_string());
    credential.complete(Ok("old".to_string()), 100);
    // One caller finds the token due and is making the exchange.
    assert!(matches!(
        get_usable_token(&mut credential, 950, "n1".to_string()),
        TokenStep::Exchange { .. }
    ));
    // A caller on whose clock the token is still fresh uses it; one on whose
    // clock it is due waits.
    match get_usable_token(&mut credential, 900, "n2".to_string()) {
        TokenStep::Ready { token, .. } => assert_eq!(token, "old"),
        other => panic!("unexpected step {:?}", other),
    }
    assert_eq!(get_usable_token(&mut credential, 940, "n3".to_string()), TokenStep::Wait);
    assert!(credential.is_refreshing());
}
