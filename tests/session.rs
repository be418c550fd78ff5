use fsqlctl::args::{launch, Args, Launch, LaunchError};
use fsqlctl::text::decimal_string;

fn args() -> Args {
    Args {
        token: "t".to_string(),
        host: "api.dev.query.ai".to_string(),
        path: "search/translation/fsql".to_string(),
        port: 443,
        verbose: false,
        file: None,
        command: None,
    }
}

#[test]
fn urls() {
    let a = args();
    assert_eq!(a.api_url(), "https://api.dev.query.ai/search/translation/fsql");
    assert_eq!(a.shell_api_url(), "https://api.dev.query.ai:443/search/translation/fsql");
}

#[test]
fn launch_modes() {
    assert_eq!(launch(true, false, true), Ok(Launch::Command));
    assert_eq!(launch(true, false, false), Err(LaunchError::CommandWithPipe));
    assert_eq!(launch(false, true, true), Ok(Launch::File));
    assert_eq!(launch(false, true, false), Err(LaunchError::FileWithPipe));
    assert_eq!(launch(false, false, false), Ok(Launch::Stdin));
    assert_eq!(launch(false, false, true), Ok(Launch::Shell));
}

#[test]
fn decimal_digits() {
    assert_eq!(decimal_string(0), "0");
    assert_eq!(decimal_string(7), "7");
    assert_eq!(decimal_string(65535), "65535");
    assert_eq!(decimal_string(usize::MAX), usize::MAX.to_string());
}
