//! The command line of the transcoding engine.
//!
//! The engine is driven through `ffmpeg_sidecar`. Its command builder is an
//! outside type: what is said here of its methods is taken from its source
//! and is not proved.

use vstd::prelude::*;
use ffmpeg_sidecar::command::FfmpegCommand;
use crate::text::{nul_free, texts_of};

verus! {

#[verifier::external_type_specification]
#[verifier::external_body]
pub struct ExFfmpegCommand(FfmpegCommand);

/// The arguments that a command holds so far, in the order in which the
/// engine will get them, each read as text. The builder keeps a text as it
/// was given only if it holds no NUL character, so none of the items below
/// takes one that does.
pub uninterp spec fn command_args(command: FfmpegCommand) -> Seq<Seq<char>>;

/// The arguments that every new command starts with: they set the log level
/// that the builder's event parser expects.
pub open spec fn preset_arguments() -> Seq<Seq<char>> {
    seq!["-loglevel"@, "level+info"@]
}

/// `FfmpegCommand::new`: a command for the engine's binary. The builder
/// gives it the two log-level arguments and no others.
#[verifier::external_body]
pub(crate) fn new_command() -> (command: FfmpegCommand)
    ensures
        command_args(command) == preset_arguments(),
{
    FfmpegCommand::new()
}

/// `FfmpegCommand::arg`: puts one argument, which holds no NUL character,
/// behind those that the command holds.
#[verifier::external_body]
pub(crate) fn push_argument(command: &mut FfmpegCommand, argument: &str)
    requires
        nul_free(argument@),
    ensures
        command_args(*final(command)) == command_args(*old(command)).push(argument@),
{
    command.arg(argument);
}

/// `FfmpegCommand::input`: names an input, which is the option `-i` and
/// then the path or address. The path holds no NUL character.
#[verifier::external_body]
pub(crate) fn push_input(command: &mut FfmpegCommand, path: &str)
    requires
        nul_free(path@),
    ensures
        command_args(*final(command)) == command_args(*old(command)).push("-i"@).push(path@),
{
    command.input(path);
}

/// `FfmpegCommand::output`: names the output, which is the path alone. The
/// path holds no NUL character.
#[verifier::external_body]
pub(crate) fn push_output(command: &mut FfmpegCommand, path: &str)
    requires
        nul_free(path@),
    ensures
        command_args(*final(command)) == command_args(*old(command)).push(path@),
{
    command.output(path);
}

/// `FfmpegCommand::no_overwrite`: the option `-n`, with which the engine
/// replaces no output file that exists, and stops at once where one does.
#[verifier::external_body]
pub(crate) fn push_no_overwrite(command: &mut FfmpegCommand)
    ensures
        command_args(*final(command)) == command_args(*old(command)).push("-n"@),
{
    command.no_overwrite();
}

/// `FfmpegCommand::get_args`: the arguments that the command holds, in
/// order, each as a string.
#[verifier::external_body]
pub(crate) fn list_arguments(command: &FfmpegCommand) -> (list: Vec<String>)
    ensures
        texts_of(list@) == command_args(*command),
{
    command.get_args().map(|argument| argument.to_string_lossy().into_owned()).collect()
}

} // verus!
