use hwhkit::config::JwtConfig;
use hwhkit::error::{Error, MiddlewareError};
use hwhkit::middleware::jwt::JwtAuth;

#[test]
fn jwt_test_jwt_auth_creation() {
    let config = JwtConfig {
        enabled: true,
        secret: "test-secret".to_string(),
        expires_in: 3600,
    };

    let jwt_auth = JwtAuth::new(&config);
    assert_eq!(jwt_auth.secret, "test-secret");
    assert_eq!(jwt_auth.expires_in, 3600);
}

#[test]
fn test_token_generation_and_verification() {
    let config = JwtConfig {
        enabled: true,
        secret: "test-secret".to_string(),
        expires_in: 3600,
    };

    let jwt_auth = JwtAuth::new(&config);
    let token = jwt_auth.generate_token("user123").unwrap();
    let claims = jwt_auth.verify_token(&token).unwrap();

    assert_eq!(claims.sub, "user123");
    assert_eq!(claims.aud, "hwhkit");
    assert_eq!(claims.iss, "hwhkit");
}

#[test]
fn integration_tests_test_jwt_auth_creation() {
    let jwt_config = JwtConfig {
        enabled: true,
        secret: "test-secret-key".to_string(),
        expires_in: 3600,
    };

    let jwt_auth = JwtAuth::new(&jwt_config);
    assert_eq!(jwt_auth.secret, "test-secret-key");
    assert_eq!(jwt_auth.expires_in, 3600);

    let token_result = jwt_auth.generate_token("test-user");
    assert!(token_result.is_ok(), "generating the token failed");

    if let Ok(token) = token_result {
        let claims_result = jwt_auth.verify_token(&token);
        assert!(claims_result.is_ok(), "verifying the token failed");

        if let Ok(claims) = claims_result {
            assert_eq!(claims.sub, "test-user");
        }
    }
}

#[test]
fn verify_rejects_wrong_secret() {
    let a = JwtAuth { secret: "secret-a".to_string(), expires_in: 60 };
    let b = JwtAuth { secret: "secret-b".to_string(), expires_in: 60 };
    let token = a.generate_token("user").unwrap();
    let r = b.verify_token(&token);
    assert!(matches!(r, Err(Error::Jwt(_))));
}

#[test]
fn extract_token_requires_a_header() {
    let auth = JwtAuth { secret: "s".to_string(), expires_in: 60 };
    let r = auth.extract_token_from_header(None);
    assert!(matches!(r, Err(Error::Middleware(MiddlewareError::MissingAuthorization))));
}

#[test]
fn extract_token_requires_bearer_form() {
    let auth = JwtAuth { secret: "s".to_string(), expires_in: 60 };
    let r = auth.extract_token_from_header(Some("Token abc"));
    assert!(matches!(r, Err(Error::Middleware(MiddlewareError::InvalidAuthorizationFormat))));
}

#[test]
fn extract_token_strips_every_bearer_marker() {
    let auth = JwtAuth { secret: "s".to_string(), expires_in: 60 };
    assert_eq!(auth.extract_token_from_header(Some("Bearer abc")).unwrap(), "abc");
    assert_eq!(auth.extract_token_from_header(Some("Bearer Bearer abc")).unwrap(), "abc");
    assert_eq!(auth.extract_token_from_header(Some("Bearer ")).unwrap(), "");
}
