use clap::builder::ValueParserFactory;
use vstd::prelude::*;

verus! {

/// The configuration that the program is started with.
#[derive(Debug, PartialEq, Eq)]
pub struct Cli {
    /// The name of the serial port on which the device is connected.
    pub serial_port: String,
    /// The port on which the planetarium's remote control API is running.
    pub api_port: u16,
}

/// A command line that gave no configuration: a misuse, or a request for the
/// help or the version text.
#[derive(Debug, PartialEq, Eq)]
pub struct UsageError {
    /// What clap has to say about it, ready to be shown.
    pub message: String,
    /// The status to leave with: 2 after a misuse, 0 after a request.
    pub exit_code: i32,
}

/// What clap finds on a command line, the program's name first, for a command
/// with two required positional values, a text and a 16-bit port number:
/// the two values, or `None` where it reports a failure instead.
pub uninterp spec fn positional_arguments(args: Seq<Seq<char>>) -> Option<(Seq<char>, u16)>;

/// Builds the command with clap's `Command` and `Arg` and runs
/// `Command::try_get_matches_from` on `args`. The contract claims that the
/// texts of `args` alone decide whether clap accepts the line and which two
/// values it finds, and that the status of a failure, which is
/// `Error::exit_code`, is 0 or 2. Of the failure's text, which is clap's
/// rendering of it, nothing is claimed.
#[verifier::external_body]
fn match_arguments(args: &Vec<String>) -> (r: Result<(String, u16), UsageError>)
    ensures
        match r {
            Ok(found) => positional_arguments(args.deep_view()) == Some((found.0@, found.1)),
            Err(failure) => positional_arguments(args.deep_view()) is None && (failure.exit_code
                == 0 || failure.exit_code == 2),
        },
{
    let serial = clap::Arg::new("serial_port").value_name("SERIAL_PORT").required(true)
        .help("The name of the serial port on which the Arduino is connected");
    let api = clap::Arg::new("api_port").value_name("API_PORT").required(true)
        .value_parser(u16::value_parser())
        .help("The port on which Stellarium's Remote Control API is running");
    let command = clap::Command::new("stellarium_bridge").version("0.1.0").arg(serial).arg(api);
    let failure = match command.try_get_matches_from(args) {
        Ok(mut found) => match (found.remove_one("serial_port"), found.remove_one("api_port")) {
            (Some(serial_port), Some(api_port)) => return Ok((serial_port, api_port)),
            _ => clap::Error::new(clap::error::ErrorKind::MissingRequiredArgument),
        },
        Err(failure) => failure,
    };
    Err(UsageError { message: failure.to_string(), exit_code: failure.exit_code() })
}

impl Cli {
    /// The configuration that the outcome of matching a command line stands for.
    pub fn from_matched(matched: Result<(String, u16), UsageError>) -> (r: Result<Cli, UsageError>)
        ensures
            match matched {
                Ok(found) => r == Ok::<Cli, UsageError>(
                    Cli { serial_port: found.0, api_port: found.1 },
                ),
                Err(failure) => r == Err::<Cli, UsageError>(failure),
            },
    {
        match matched {
            Ok(found) => Ok(Cli { serial_port: found.0, api_port: found.1 }),
            Err(failure) => Err(failure),
        }
    }
}

/// Reads the configuration from a command line, the program's name first.
///
/// The line is accepted exactly where clap accepts it, and the configuration
/// then holds the two values that clap found.
pub fn parse(args: &Vec<String>) -> (r: Result<Cli, UsageError>)
    ensures
        match r {
            Ok(cli) => positional_arguments(args.deep_view()) == Some(
                (cli.serial_port@, cli.api_port),
            ),
            Err(failure) => positional_arguments(args.deep_view()) is None && (failure.exit_code
                == 0 || failure.exit_code == 2),
        },
{
    Cli::from_matched(match_arguments(args))
}

} // verus!
