//! User records, the claims a token carries, and what login takes and gives.

use vstd::prelude::*;
use crate::text::{clone_text, opt_text};

verus! {

/// A registered user. `date_naissance` counts days since the first day of
/// the common era.
#[derive(Debug, PartialEq, Eq)]
pub struct Utilisateur {
    pub id: i32,
    pub nom_apiculteur: Option<String>,
    pub prenom_apiculteur: Option<String>,
    pub mail: Option<String>,
    pub telephone: Option<String>,
    pub mot_de_passe: Option<String>,
    pub numero_apiculteur: Option<i32>,
    pub date_naissance: Option<i32>,
}

/// The fields that a user is registered with. `mot_de_passe` holds the
/// plaintext password on the way in.
#[derive(Debug, PartialEq, Eq)]
pub struct NewUtilisateur {
    pub nom_apiculteur: Option<String>,
    pub prenom_apiculteur: Option<String>,
    pub mail: Option<String>,
    pub telephone: Option<String>,
    pub mot_de_passe: Option<String>,
    pub numero_apiculteur: Option<i32>,
    pub date_naissance: Option<i32>,
}

/// The fields that a profile update writes. Every field is written: one
/// left at `None` clears the stored value.
#[derive(Debug, PartialEq, Eq)]
pub struct UpdateUtilisateur {
    pub nom_apiculteur: Option<String>,
    pub prenom_apiculteur: Option<String>,
    pub mail: Option<String>,
    pub telephone: Option<String>,
    pub mot_de_passe: Option<String>,
    pub numero_apiculteur: Option<i32>,
    pub date_naissance: Option<i32>,
}

/// The claims inside a token: the subject's email and id, the time of
/// issue and the time of expiry, in seconds since the Unix epoch.
#[derive(Debug, PartialEq, Eq)]
pub struct TokenClaims {
    pub sub: String,
    pub user_id: i32,
    pub iat: u64,
    pub exp: u64,
}

/// What a successful login hands back.
#[derive(Debug, PartialEq, Eq)]
pub struct AuthResponse {
    pub token: String,
    pub user: Utilisateur,
}

/// What a login attempt presents.
#[derive(Debug, PartialEq, Eq)]
pub struct LoginCredentials {
    pub email: String,
    pub password: String,
}

/// The view of a `Utilisateur`.
pub struct UtilisateurView {
    pub id: i32,
    pub nom_apiculteur: Option<Seq<char>>,
    pub prenom_apiculteur: Option<Seq<char>>,
    pub mail: Option<Seq<char>>,
    pub telephone: Option<Seq<char>>,
    pub mot_de_passe: Option<Seq<char>>,
    pub numero_apiculteur: Option<i32>,
    pub date_naissance: Option<i32>,
}

/// The view of a `NewUtilisateur` and of an `UpdateUtilisateur`.
pub struct UtilisateurFields {
    pub nom_apiculteur: Option<Seq<char>>,
    pub prenom_apiculteur: Option<Seq<char>>,
    pub mail: Option<Seq<char>>,
    pub telephone: Option<Seq<char>>,
    pub mot_de_passe: Option<Seq<char>>,
    pub numero_apiculteur: Option<i32>,
    pub date_naissance: Option<i32>,
}

/// The view of a `TokenClaims`.
pub struct ClaimsView {
    pub sub: Seq<char>,
    pub user_id: i32,
    pub iat: u64,
    pub exp: u64,
}

/// The view of an `AuthResponse`.
pub struct AuthResponseView {
    pub token: Seq<char>,
    pub user: UtilisateurView,
}

impl View for Utilisateur {
    type V = UtilisateurView;

    open spec fn view(&self) -> UtilisateurView {
        UtilisateurView {
            id: self.id,
            nom_apiculteur: opt_text(self.nom_apiculteur),
            prenom_apiculteur: opt_text(self.prenom_apiculteur),
            mail: opt_text(self.mail),
            telephone: opt_text(self.telephone),
            mot_de_passe: opt_text(self.mot_de_passe),
            numero_apiculteur: self.numero_apiculteur,
            date_naissance: self.date_naissance,
        }
    }
}

impl View for NewUtilisateur {
    type V = UtilisateurFields;

    open spec fn view(&self) -> UtilisateurFields {
        UtilisateurFields {
            nom_apiculteur: opt_text(self.nom_apiculteur),
            prenom_apiculteur: opt_text(self.prenom_apiculteur),
            mail: opt_text(self.mail),
            telephone: opt_text(self.telephone),
            mot_de_passe: opt_text(self.mot_de_passe),
            numero_apiculteur: self.numero_apiculteur,
            date_naissance: self.date_naissance,
        }
    }
}

impl View for UpdateUtilisateur {
    type V = UtilisateurFields;

    open spec fn view(&self) -> UtilisateurFields {
        UtilisateurFields {
            nom_apiculteur: opt_text(self.nom_apiculteur),
            prenom_apiculteur: opt_text(self.prenom_apiculteur),
            mail: opt_text(self.mail),
            telephone: opt_text(self.telephone),
            mot_de_passe: opt_text(self.mot_de_passe),
            numero_apiculteur: self.numero_apiculteur,
            date_naissance: self.date_naissance,
        }
    }
}

impl View for TokenClaims {
    type V = ClaimsView;

    open spec fn view(&self) -> ClaimsView {
        ClaimsView { sub: self.sub@, user_id: self.user_id, iat: self.iat, exp: self.exp }
    }
}

impl View for AuthResponse {
    type V = AuthResponseView;

    open spec fn view(&self) -> AuthResponseView {
        AuthResponseView { token: self.token@, user: self.user@ }
    }
}

impl UtilisateurFields {
    /// The record that these fields make under the id `id`.
    pub open spec fn with_id(self, id: i32) -> UtilisateurView {
        UtilisateurView {
            id,
            nom_apiculteur: self.nom_apiculteur,
            prenom_apiculteur: self.prenom_apiculteur,
            mail: self.mail,
            telephone: self.telephone,
            mot_de_passe: self.mot_de_passe,
            numero_apiculteur: self.numero_apiculteur,
            date_naissance: self.date_naissance,
        }
    }

    /// These fields with `hash` in place of the password.
    pub open spec fn with_password(self, hash: Seq<char>) -> UtilisateurFields {
        UtilisateurFields { mot_de_passe: Some(hash), ..self }
    }
}

impl Clone for Utilisateur {
    fn clone(&self) -> (res: Utilisateur)
        ensures
            res == *self,
    {
        Utilisateur {
            id: self.id,
            nom_apiculteur: clone_text(&self.nom_apiculteur),
            prenom_apiculteur: clone_text(&self.prenom_apiculteur),
            mail: clone_text(&self.mail),
            telephone: clone_text(&self.telephone),
            mot_de_passe: clone_text(&self.mot_de_passe),
            numero_apiculteur: self.numero_apiculteur,
            date_naissance: self.date_naissance,
        }
    }
}

impl Utilisateur {
    /// The record that `fields` make under the id `id`.
    pub fn from_new(id: i32, fields: NewUtilisateur) -> (row: Utilisateur)
        ensures
            row@ == fields@.with_id(id),
    {
        Utilisateur {
            id,
            nom_apiculteur: fields.nom_apiculteur,
            prenom_apiculteur: fields.prenom_apiculteur,
            mail: fields.mail,
            telephone: fields.telephone,
            mot_de_passe: fields.mot_de_passe,
            numero_apiculteur: fields.numero_apiculteur,
            date_naissance: fields.date_naissance,
        }
    }

    /// The record that `fields` make under the id `id`.
    pub fn from_update(id: i32, fields: UpdateUtilisateur) -> (row: Utilisateur)
        ensures
            row@ == fields@.with_id(id),
    {
        Utilisateur {
            id,
            nom_apiculteur: fields.nom_apiculteur,
            prenom_apiculteur: fields.prenom_apiculteur,
            mail: fields.mail,
            telephone: fields.telephone,
            mot_de_passe: fields.mot_de_passe,
            numero_apiculteur: fields.numero_apiculteur,
            date_naissance: fields.date_naissance,
        }
    }
}

impl Clone for TokenClaims {
    fn clone(&self) -> (res: TokenClaims)
        ensures
            res == *self,
    {
        TokenClaims { sub: self.sub.clone(), user_id: self.user_id, iat: self.iat, exp: self.exp }
    }
}

} // verus!
