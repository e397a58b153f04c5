use vstd::prelude::*;

verus! {

/// Why the web server could not start.
#[derive(Debug, PartialEq, Eq)]
pub enum Error {
    /// The folder of static files does not exist.
    FailStartWebFolderNotFound(String),
}

/// The message of a missing web folder.
pub open spec fn not_found_message(folder: Seq<char>) -> Seq<char> {
    "Web server failed to start because web-folder '"@ + folder + "' not found!"@
}

impl Error {
    /// The error in words.
    pub fn message(&self) -> (r: String)
        ensures
            self matches Error::FailStartWebFolderNotFound(f) && r@ == not_found_message(f@),
    {
        match self {
            Error::FailStartWebFolderNotFound(folder) => {
                let mut r = String::from_str("Web server failed to start because web-folder '");
                r.append(folder.as_str());
                r.append("' not found!");
                r
            },
        }
    }
}

/// The path of the index page in a folder.
pub open spec fn index_path_of(folder: Seq<char>) -> Seq<char> {
    folder + "/index.html"@
}

/// The page served at the root: `index.html` inside the web folder.
pub fn index_file(web_folder: &str) -> (r: String)
    ensures
        r@ == index_path_of(web_folder@),
{
    let mut r = String::from_str(web_folder);
    r.append("/index.html");
    r
}

/// The server starts only from a folder that exists.
pub fn check_web_folder(web_folder: &str, exists: bool) -> (r: Result<(), Error>)
    ensures
        exists <==> r is Ok,
        !exists ==> (r matches Err(Error::FailStartWebFolderNotFound(f)) && f@ == web_folder@),
{
    if exists {
        Ok(())
    } else {
        Err(Error::FailStartWebFolderNotFound(String::from_str(web_folder)))
    }
}

} // verus!
