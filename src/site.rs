//! Addresses and selectors of the target portal's markup.

use vstd::prelude::*;

verus! {

/// Page on which the flow starts.
pub const TARGET_URL: &'static str = "https://www.eurocash.pl";

/// Button of the cookie-consent banner.
pub const CONSENT_SELECTOR: &'static str = "#c-p-bn";

/// Affordance that opens the login form.
pub const LOGIN_BUTTON_SELECTOR: &'static str =
    "#ecHeader > div.fi.relative > div.menu.menu--desktop > div > a.btn.btn--green-login.m-r-25";

/// Field that takes the login.
pub const LOGIN_FIELD_SELECTOR: &'static str = "#login";

/// Field that takes the password.
pub const PASSWORD_FIELD_SELECTOR: &'static str = "#password";

/// Key pressed in the password field to submit the form.
pub const SUBMIT_KEY: &'static str = "Enter";

/// Script that reads the token the portal stores after authentication.
pub const TOKEN_EXPRESSION: &'static str = "localStorage.access_token";

} // verus!
