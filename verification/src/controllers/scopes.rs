//! Authorization scopes: what a session may see and change.

use vstd::prelude::*;
use crate::text::{same_text, UnknownVariant};

verus! {

/// One capability of a session.
#[derive(Clone, Copy, Debug, PartialEq, Eq, Structural)]
pub enum SessionScopes {
    ViewPublicID,
    ViewEmailAddresses,
    ViewPublicProfile,
    ViewPrivateSensitiveProfile,
    ViewSubscription,
    UpdateName,
    UpdateEmailAddresses,
    UpdatePreferences,
    /// Everything. Never granted to third parties.
    TotalAccess,
}

impl SessionScopes {
    /// The name of the scope inside a token.
    pub open spec fn text(self) -> Seq<char> {
        match self {
            SessionScopes::ViewPublicID => "view_public_id"@,
            SessionScopes::ViewEmailAddresses => "view_email_addresses"@,
            SessionScopes::ViewPublicProfile => "view_public_profile"@,
            SessionScopes::ViewPrivateSensitiveProfile => "view_private_sensitive_profile"@,
            SessionScopes::ViewSubscription => "view_subscription"@,
            SessionScopes::UpdateName => "update_name"@,
            SessionScopes::UpdateEmailAddresses => "update_email_addresses"@,
            SessionScopes::UpdatePreferences => "update_preferences"@,
            SessionScopes::TotalAccess => "total_access"@,
        }
    }

    /// The scope that a name stands for, if any.
    pub open spec fn parse(s: Seq<char>) -> Option<SessionScopes> {
        if s == "view_public_id"@ {
            Some(SessionScopes::ViewPublicID)
        } else if s == "view_email_addresses"@ {
            Some(SessionScopes::ViewEmailAddresses)
        } else if s == "view_public_profile"@ {
            Some(SessionScopes::ViewPublicProfile)
        } else if s == "view_private_sensitive_profile"@ {
            Some(SessionScopes::ViewPrivateSensitiveProfile)
        } else if s == "view_subscription"@ {
            Some(SessionScopes::ViewSubscription)
        } else if s == "update_name"@ {
            Some(SessionScopes::UpdateName)
        } else if s == "update_email_addresses"@ {
            Some(SessionScopes::UpdateEmailAddresses)
        } else if s == "update_preferences"@ {
            Some(SessionScopes::UpdatePreferences)
        } else if s == "total_access"@ {
            Some(SessionScopes::TotalAccess)
        } else {
            None
        }
    }

    pub fn to_string(&self) -> (s: String)
        ensures
            s@ == self.text(),
    {
        match self {
            SessionScopes::ViewPublicID => "view_public_id".to_string(),
            SessionScopes::ViewEmailAddresses => "view_email_addresses".to_string(),
            SessionScopes::ViewPublicProfile => "view_public_profile".to_string(),
            SessionScopes::ViewPrivateSensitiveProfile => "view_private_sensitive_profile".to_string(),
            SessionScopes::ViewSubscription => "view_subscription".to_string(),
            SessionScopes::UpdateName => "update_name".to_string(),
            SessionScopes::UpdateEmailAddresses => "update_email_addresses".to_string(),
            SessionScopes::UpdatePreferences => "update_preferences".to_string(),
            SessionScopes::TotalAccess => "total_access".to_string(),
        }
    }

    /// Reads the name of a scope; any other text is an error.
    pub fn from_str(input: &str) -> (r: Result<SessionScopes, UnknownVariant>)
        ensures
            r == match SessionScopes::parse(input@) {
                Some(scope) => Ok::<SessionScopes, UnknownVariant>(scope),
                None => Err::<SessionScopes, UnknownVariant>(UnknownVariant),
            },
    {
        if same_text(input, "view_public_id") {
            Ok(SessionScopes::ViewPublicID)
        } else if same_text(input, "view_email_addresses") {
            Ok(SessionScopes::ViewEmailAddresses)
        } else if same_text(input, "view_public_profile") {
            Ok(SessionScopes::ViewPublicProfile)
        } else if same_text(input, "view_private_sensitive_profile") {
            Ok(SessionScopes::ViewPrivateSensitiveProfile)
        } else if same_text(input, "view_subscription") {
            Ok(SessionScopes::ViewSubscription)
        } else if same_text(input, "update_name") {
            Ok(SessionScopes::UpdateName)
        } else if same_text(input, "update_email_addresses") {
            Ok(SessionScopes::UpdateEmailAddresses)
        } else if same_text(input, "update_preferences") {
            Ok(SessionScopes::UpdatePreferences)
        } else if same_text(input, "total_access") {
            Ok(SessionScopes::TotalAccess)
        } else {
            Err(UnknownVariant)
        }
    }

    /// No name of a scope holds a comma, so names can be joined by commas.
    pub proof fn lemma_text_has_no_comma(scope: SessionScopes)
        ensures
            !scope.text().contains(','),
            scope.text().len() > 0,
    {
        reveal_strlit("view_public_id");
        reveal_strlit("view_email_addresses");
        reveal_strlit("view_public_profile");
        reveal_strlit("view_private_sensitive_profile");
        reveal_strlit("view_subscription");
        reveal_strlit("update_name");
        reveal_strlit("update_email_addresses");
        reveal_strlit("update_preferences");
        reveal_strlit("total_access");
    }

    /// Every scope is read back from its own name.
    pub proof fn lemma_text_round_trip(scope: SessionScopes)
        ensures
            SessionScopes::parse(scope.text()) == Some(scope),
    {
        reveal_strlit("view_public_id");
        reveal_strlit("view_email_addresses");
        reveal_strlit("view_public_profile");
        reveal_strlit("view_private_sensitive_profile");
        reveal_strlit("view_subscription");
        reveal_strlit("update_name");
        reveal_strlit("update_email_addresses");
        reveal_strlit("update_preferences");
        reveal_strlit("total_access");
        let names = seq![
            "view_public_id"@,
            "view_email_addresses"@,
            "view_public_profile"@,
            "view_private_sensitive_profile"@,
            "view_subscription"@,
            "update_name"@,
            "update_email_addresses"@,
            "update_preferences"@,
            "total_access"@,
        ];
        assert(names[0].len() == 14 && names[0][0] == 'v' && names[0][5] == 'p' && names[0][11] == '_');
        assert(names[1].len() == 20 && names[1][0] == 'v');
        assert(names[2].len() == 19);
        assert(names[3].len() == 30);
        assert(names[4].len() == 17);
        assert(names[5].len() == 11);
        assert(names[6].len() == 22);
        assert(names[7].len() == 18);
        assert(names[8].len() == 12);
    }
}

/// What a session is: the customer it belongs to and what it may do.
#[derive(Clone, Debug, PartialEq, Eq)]
pub struct SessionData {
    pub customer_id: String,
    pub scopes: Vec<SessionScopes>,
}

/// The mathematical value of a [`SessionData`].
pub struct SessionDataView {
    pub customer_id: Seq<char>,
    pub scopes: Seq<SessionScopes>,
}

impl View for SessionData {
    type V = SessionDataView;

    open spec fn view(&self) -> SessionDataView {
        SessionDataView { customer_id: self.customer_id@, scopes: self.scopes@ }
    }
}

/// Whether a set of granted scopes opens an endpoint that asks for the
/// required ones: it holds all of them, or it holds `TotalAccess`, which is
/// always enough alone.
pub open spec fn grants(granted: Seq<SessionScopes>, required: Seq<SessionScopes>) -> bool {
    granted.contains(SessionScopes::TotalAccess) || forall|i: int|
        0 <= i < required.len() ==> granted.contains(#[trigger] required[i])
}

/// Whether a scope is among the granted ones.
pub fn has_scope(granted: &Vec<SessionScopes>, scope: SessionScopes) -> (r: bool)
    ensures
        r == granted@.contains(scope),
{
    let mut i: usize = 0;
    while i < granted.len()
        invariant
            i <= granted.len(),
            forall|j: int| 0 <= j < i ==> granted@[j] != scope,
        decreases granted.len() - i,
    {
        if granted[i] == scope {
            return true;
        }
        i += 1;
    }
    false
}

/// Decides whether the granted scopes open an endpoint that asks for the
/// required ones.
pub fn is_granted(granted: &Vec<SessionScopes>, required: &Vec<SessionScopes>) -> (r: bool)
    ensures
        r == grants(granted@, required@),
{
    if has_scope(granted, SessionScopes::TotalAccess) {
        return true;
    }
    let mut i: usize = 0;
    while i < required.len()
        invariant
            i <= required.len(),
            !granted@.contains(SessionScopes::TotalAccess),
            forall|j: int| 0 <= j < i ==> granted@.contains(#[trigger] required@[j]),
        decreases required.len() - i,
    {
        if !has_scope(granted, required[i]) {
            assert(!granted@.contains(required@[i as int]));
            return false;
        }
        i += 1;
    }
    true
}

} // verus!
