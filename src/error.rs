use vstd::prelude::*;

verus! {

/// The errors a caller of the lookup service can see.
#[derive(Clone, Debug, PartialEq, Eq)]
pub enum ApiError {
    /// No package URL was supplied where one is required.
    MissingQueryArgument,
    /// A lookup produced nothing for the given package URL.
    PackageNotFound { purl: String },
    /// The given string is not a package URL.
    InvalidPackageUrl { purl: String },
    /// A collaborator failed; the cause is deliberately not exposed.
    InternalError,
}

impl ApiError {
    /// The transport status code of each kind of error.
    pub open spec fn status_of(&self) -> u16 {
        match self {
            ApiError::MissingQueryArgument => 400,
            ApiError::PackageNotFound { .. } => 404,
            ApiError::InvalidPackageUrl { .. } => 400,
            ApiError::InternalError => 500,
        }
    }

    /// The English message shown with each kind of error.
    pub open spec fn message_of(&self) -> Seq<char> {
        match self {
            ApiError::MissingQueryArgument => "No query argument was specified"@,
            ApiError::PackageNotFound { purl } => "Package "@ + purl@ + " was not found"@,
            ApiError::InvalidPackageUrl { purl } => purl@ + " is not a valid package URL"@,
            ApiError::InternalError => "Error processing error internally"@,
        }
    }

    pub fn status_code(&self) -> (r: u16)
        ensures
            r == self.status_of(),
    {
        match self {
            ApiError::MissingQueryArgument => 400,
            ApiError::PackageNotFound { .. } => 404,
            ApiError::InvalidPackageUrl { .. } => 400,
            ApiError::InternalError => 500,
        }
    }

    pub fn message(&self) -> (r: String)
        ensures
            r@ == self.message_of(),
    {
        match self {
            ApiError::MissingQueryArgument => {
                proof {
                    reveal_strlit("No query argument was specified");
                }
                String::from_str("No query argument was specified")
            },
            ApiError::PackageNotFound { purl } => {
                proof {
                    reveal_strlit("Package ");
                    reveal_strlit(" was not found");
                }
                let head = String::from_str("Package ");
                head.concat(purl.as_str()).concat(" was not found")
            },
            ApiError::InvalidPackageUrl { purl } => {
                proof {
                    reveal_strlit(" is not a valid package URL");
                }
                purl.clone().concat(" is not a valid package URL")
            },
            ApiError::InternalError => {
                proof {
                    reveal_strlit("Error processing error internally");
                }
                String::from_str("Error processing error internally")
            },
        }
    }
}

}
