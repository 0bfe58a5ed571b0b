use launch_core::errors::AuthError;
use launch_core::errors::CredentialError;
use launch_core::errors::RegistryError;
use launch_core::errors::RunError;

#[test]
fn registry_error_messages() {
    assert_eq!(RegistryError::NotFound.message(), "instance not found");
    assert_eq!(
        RegistryError::DuplicateInstance.message(),
        "instance identifier already registered"
    );
}

#[test]
fn run_error_messages() {
    assert_eq!(RunError::NotFound.message(), "cluster not found");
    assert_eq!(RunError::SpawnFailed.message(), "failed to start the cluster process");
    assert_eq!(
        RunError::DuplicateInstance.message(),
        "instance identifier already registered"
    );
}

#[test]
fn credential_error_messages() {
    assert_eq!(CredentialError::NotFound.message(), "user not found");
}

#[test]
fn auth_error_messages() {
    assert_eq!(AuthError::IOFailure.message(), "failed to read the login surface");
    assert_eq!(
        AuthError::ExchangeFailed.message(),
        "failed to exchange the authorization code"
    );
}
