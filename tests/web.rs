use todo_backend::web::check_web_folder;
use todo_backend::web::index_file;
use todo_backend::web::Error;

#[test]
fn missing_web_folder_is_an_error() {
    assert_eq!(Err(Error::FailStartWebFolderNotFound("web-folder/".to_string())), check_web_folder("web-folder/", false));
    assert_eq!(Ok(()), check_web_folder("web-folder/", true));
}

#[test]
fn web_error_message() {
    let e = Error::FailStartWebFolderNotFound("www".to_string());
    assert_eq!("Web server failed to start because web-folder 'www' not found!", e.message());
}

#[test]
fn index_file_is_inside_the_folder() {
    assert_eq!("www/index.html", index_file("www"));
}
