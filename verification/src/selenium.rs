//! Scripts, commands and the loop generator.

use vstd::prelude::*;
use std::collections::HashMap;
use crate::clock::{is_date_stamp, utc_today};
use crate::errors::AppError;
use crate::json::{field_names, json_text, row_keys, rows_to_json, texts, Row};

verus! {

/// What a [`Command`] holds, as sequences of characters.
pub struct CommandView {
    pub command: Seq<char>,
    pub target: Seq<char>,
    pub targets: Seq<Seq<char>>,
    pub value: Seq<char>,
    pub description: Seq<char>,
}

/// What a [`Script`] holds, as sequences.
pub struct ScriptView {
    pub name: Seq<char>,
    pub creation_date: Seq<char>,
    pub commands: Seq<CommandView>,
}

/// A named list of commands with the date on which it was made. The date is
/// shown to the user and never read.
#[derive(Debug)]
pub struct Script {
    pub name: String,
    pub creation_date: String,
    pub commands: Vec<Command>,
}

/// One step of automation. What `target` and `value` mean depends on the
/// tag in `command`, which the automation tool defines.
#[derive(Debug)]
pub struct Command {
    pub command: String,
    pub target: String,
    pub targets: Vec<String>,
    pub value: String,
    pub description: String,
}

impl View for Command {
    type V = CommandView;

    open spec fn view(&self) -> CommandView {
        CommandView {
            command: self.command@,
            target: self.target@,
            targets: texts(self.targets@),
            value: self.value@,
            description: self.description@,
        }
    }
}

/// The views of a list of commands, in order.
pub open spec fn command_views(commands: Seq<Command>) -> Seq<CommandView> {
    commands.map_values(|c: Command| c@)
}

impl View for Script {
    type V = ScriptView;

    open spec fn view(&self) -> ScriptView {
        ScriptView {
            name: self.name@,
            creation_date: self.creation_date@,
            commands: command_views(self.commands@),
        }
    }
}

/// The command with the given tag, target and value, without alternate
/// targets and without a description.
pub open spec fn plain_command(command: Seq<char>, target: Seq<char>, value: Seq<char>) -> CommandView {
    CommandView { command, target, targets: Seq::empty(), value, description: Seq::empty() }
}

/// The name under which the rows are declared as an array.
pub open spec fn data_ident() -> Seq<char> {
    "data"@
}

/// The name of the variable that holds the current row inside the loop.
pub open spec fn row_ident() -> Seq<char> {
    "row"@
}

/// The scriptlet that hands out the field `ident` of the current row.
pub open spec fn export_scriptlet(ident: Seq<char>) -> Seq<char> {
    "return row['"@ + ident + "'];"@
}

/// Runs [`export_scriptlet`] and stores what it returns in the variable
/// named like the field.
pub open spec fn export_command(ident: Seq<char>) -> CommandView {
    plain_command("ExecuteScript"@, export_scriptlet(ident), ident)
}

/// Runs a scriptlet that returns the array written as `json`, and stores it
/// in the variable `ident`.
pub open spec fn declare_array_command(json: Seq<char>, ident: Seq<char>) -> CommandView {
    plain_command("ExecuteScript"@, "return "@ + json + ";"@, ident)
}

/// Opens a loop over the array `target` that binds each item to `value`.
pub open spec fn foreach_command(target: Seq<char>, value: Seq<char>) -> CommandView {
    plain_command("forEach"@, target, value)
}

/// Closes the innermost open block.
pub open spec fn end_command() -> CommandView {
    plain_command("end"@, Seq::empty(), Seq::empty())
}

/// Runs a scriptlet that writes `line`, a template literal, to the browser's
/// console. Nothing is stored.
pub open spec fn console_log_command(line: Seq<char>) -> CommandView {
    plain_command("ExecuteScript"@, "console.log(`"@ + line + "`);"@, Seq::empty())
}

/// Writes `target` to the log of the automation tool.
pub open spec fn echo_command(target: Seq<char>) -> CommandView {
    plain_command("echo"@, target, Seq::empty())
}

/// The line logged at the start of every pass; it interpolates the variable
/// `ident`.
pub open spec fn row_log_line(ident: Seq<char>) -> Seq<char> {
    "processing row ${"@ + ident + "}"@
}

/// The message echoed for the field `ident`; it names the field and
/// interpolates the variable that holds it.
pub open spec fn field_log_line(ident: Seq<char>) -> Seq<char> {
    "processing row."@ + ident + " ${"@ + ident + "}"@
}

/// Builds a command from its tag, target and value.
pub fn cmd(command: &str, target: &str, value: &str) -> (c: Command)
    ensures
        c@ == plain_command(command@, target@, value@),
{
    let c = Command {
        command: command.to_string(),
        target: target.to_string(),
        targets: Vec::new(),
        value: value.to_string(),
        description: String::new(),
    };
    assert(texts(c.targets@) =~= Seq::<Seq<char>>::empty());
    c
}

/// The command that exports the field `ident` of the current row into the
/// variable of the same name. The name goes into the scriptlet as it is.
pub fn export_row_variable(ident: &str) -> (c: Command)
    ensures
        c@ == export_command(ident@),
{
    let mut scriptlet = "return row['".to_string();
    scriptlet.append(ident);
    scriptlet.append("'];");
    cmd("ExecuteScript", scriptlet.as_str(), ident)
}

/// The command that opens a loop over the array `target`, binding each item
/// to the variable `value`.
pub fn foreach(target: &str, value: &str) -> (c: Command)
    ensures
        c@ == foreach_command(target@, value@),
{
    cmd("forEach", target, value)
}

/// The command that closes a loop.
pub fn end() -> (c: Command)
    ensures
        c@ == end_command(),
{
    proof {
        reveal_strlit("");
    }
    let c = cmd("end", "", "");
    assert(""@ =~= Seq::<char>::empty());
    c
}

/// The command that writes `line` to the browser's console.
pub fn console_log(line: &str) -> (c: Command)
    ensures
        c@ == console_log_command(line@),
{
    proof {
        reveal_strlit("");
    }
    let mut scriptlet = "console.log(`".to_string();
    scriptlet.append(line);
    scriptlet.append("`);");
    assert(""@ =~= Seq::<char>::empty());
    cmd("ExecuteScript", scriptlet.as_str(), "")
}

/// The command that writes `target` to the log of the automation tool.
pub fn echo(target: &str) -> (c: Command)
    ensures
        c@ == echo_command(target@),
{
    proof {
        reveal_strlit("");
    }
    assert(""@ =~= Seq::<char>::empty());
    cmd("echo", target, "")
}

/// The name of the looped version of a script called `name`.
pub open spec fn looped_name(name: Seq<char>) -> Seq<char> {
    "looped "@ + name
}

/// The commands of a loop script: the declaration of the array, the opening
/// of the loop, the log line, one export for each field, one echo for each
/// field, the commands to replay, and the end of the loop.
pub open spec fn loop_commands(
    array: CommandView,
    fields: Seq<Seq<char>>,
    body: Seq<CommandView>,
) -> Seq<CommandView> {
    seq![
        array,
        foreach_command(data_ident(), row_ident()),
        console_log_command(row_log_line(row_ident())),
    ] + Seq::new(fields.len(), |i: int| export_command(fields[i])) + Seq::new(
        fields.len(),
        |i: int| echo_command(field_log_line(fields[i])),
    ) + body + seq![end_command()]
}

/// What is reported for any number of scripts but one.
pub open spec fn only_one_script() -> Seq<char> {
    "only one script supported"@
}

/// What is reported for a table without rows.
pub open spec fn empty_input() -> Seq<char> {
    "empty input data"@
}

/// What is reported when the rows cannot be written as JSON.
pub open spec fn serialization_failed() -> Seq<char> {
    "Could not serialize data"@
}

/// Whether `r` is a failure of the generation with the given reason.
pub open spec fn fails_with<T>(r: Result<T, AppError>, reason: Seq<char>) -> bool {
    r matches Err(AppError::OtherError(text)) && text@ == reason
}

/// The number of commands of a loop script over `fields` fields that
/// replays `body` commands: three before the exports, an export and an echo
/// for each field, the replayed commands, and the end of the loop.
pub open spec fn loop_length(fields: nat, body: nat) -> nat {
    3 + 2 * fields + body + 1
}

/// Whether `commands` ends with `body`, unchanged and in order, and then the
/// command that closes the loop.
pub open spec fn keeps_body(commands: Seq<CommandView>, body: Seq<CommandView>) -> bool {
    &&& commands.len() > body.len()
    &&& commands.subrange(commands.len() - 1 - body.len(), commands.len() - 1) == body
    &&& commands.last() == end_command()
}

/// Whether the exports and echoes generated in `commands`, which stand
/// after the first three commands, are for fields of `fields` only.
pub open spec fn exports_only(commands: Seq<CommandView>, fields: Seq<Seq<char>>) -> bool {
    forall|i: int, ident: Seq<char>|
        #![trigger commands[i], export_command(ident)]
        #![trigger commands[i], field_log_line(ident)]
        3 <= i < 3 + 2 * fields.len() && (commands[i] == export_command(ident) || commands[i]
            == echo_command(field_log_line(ident))) ==> fields.contains(ident)
}

/// Whether `looped` is the loop script made of `source` for rows whose JSON
/// text is `json` and whose first row has the fields `fields`.
pub open spec fn is_loop_of(
    looped: ScriptView,
    source: ScriptView,
    json: Seq<char>,
    fields: Seq<Seq<char>>,
) -> bool {
    &&& looped.name == looped_name(source.name)
    &&& is_date_stamp(looped.creation_date)
    &&& looped.commands == loop_commands(
        declare_array_command(json, data_ident()),
        fields,
        source.commands,
    )
    &&& looped.commands.len() == loop_length(fields.len(), source.commands.len())
    &&& keeps_body(looped.commands, source.commands)
    &&& exports_only(looped.commands, fields)
}

/// A field's echo message determines the field.
pub proof fn lemma_field_log_line_injective(a: Seq<char>, b: Seq<char>)
    requires
        field_log_line(a) == field_log_line(b),
    ensures
        a == b,
{
    reveal_strlit("processing row.");
    reveal_strlit(" ${");
    reveal_strlit("}");
    let la = field_log_line(a);
    let lb = field_log_line(b);
    assert(la.len() == 19 + 2 * a.len());
    assert(lb.len() == 19 + 2 * b.len());
    assert(a.len() == b.len());
    assert(la.subrange(15, 15 + a.len() as int) =~= a);
    assert(lb.subrange(15, 15 + b.len() as int) =~= b);
}

/// The commands of a loop script are as many as [`loop_length`] says, end
/// with the replayed commands and the end of the loop, and export and echo
/// the given fields only.
pub proof fn lemma_loop_commands(array: CommandView, fields: Seq<Seq<char>>, body: Seq<CommandView>)
    ensures
        loop_commands(array, fields, body).len() == loop_length(fields.len(), body.len()),
        keeps_body(loop_commands(array, fields, body), body),
        exports_only(loop_commands(array, fields, body), fields),
{
    let commands = loop_commands(array, fields, body);
    let m = fields.len() as int;
    assert(commands.subrange(commands.len() - 1 - body.len(), commands.len() - 1) =~= body);
    reveal_strlit("ExecuteScript");
    reveal_strlit("echo");
    assert("ExecuteScript"@.len() != "echo"@.len());
    assert forall|i: int, ident: Seq<char>|
        #![trigger commands[i], export_command(ident)]
        #![trigger commands[i], field_log_line(ident)]
        3 <= i < 3 + 2 * fields.len() && (commands[i] == export_command(ident) || commands[i]
            == echo_command(field_log_line(ident))) implies fields.contains(ident) by {
        if i < 3 + m {
            assert(commands[i] == export_command(fields[i - 3]));
            assert(commands[i].command == "ExecuteScript"@);
            assert(commands[i].value == fields[i - 3]);
            assert(fields[i - 3] == ident);
        } else {
            assert(commands[i] == echo_command(field_log_line(fields[i - 3 - m])));
            assert(commands[i].command == "echo"@);
            lemma_field_log_line_injective(fields[i - 3 - m], ident);
            assert(fields[i - 3 - m] == ident);
        }
    }
}

/// The command that declares an array under the name `ident`, from what the
/// serializer made of the rows: on its text, the declaration; on its error,
/// the failure of the generation.
pub fn declare_array_from(json: Result<String, serde_json::Error>, ident: &str) -> (r: Result<
    Command,
    AppError,
>)
    ensures
        match json {
            Ok(text) => r matches Ok(c) && c@ == declare_array_command(text@, ident@),
            Err(_) => fails_with(r, serialization_failed()),
        },
{
    match json {
        Ok(text) => {
            let mut scriptlet = "return ".to_string();
            scriptlet.append(text.as_str());
            scriptlet.append(";");
            Ok(cmd("ExecuteScript", scriptlet.as_str(), ident))
        },
        Err(_) => Err(AppError::OtherError("Could not serialize data".to_string())),
    }
}

/// The command that declares the rows as an array under the name `ident`.
/// Fails only where the rows cannot be written as JSON.
pub fn declare_array(data: Vec<Row>, ident: &str) -> (r: Result<Command, AppError>)
    ensures
        match json_text(data@) {
            Some(text) => r matches Ok(c) && c@ == declare_array_command(text, ident@),
            None => fails_with(r, serialization_failed()),
        },
{
    let json = rows_to_json(&data);
    declare_array_from(json, ident)
}

/// Wraps the commands of `script` in a loop over the declared array: after
/// `array` come the opening of the loop and the log line, then an export and
/// an echo for each of `fields`, then the commands of `script` as they are,
/// then the end of the loop. The new script is called "looped " and the
/// name of `script`, and carries `creation_date`.
pub fn wrap_in_loop(script: Script, fields: &Vec<String>, array: Command, creation_date: String) -> (looped:
    Script)
    ensures
        looped@.name == looped_name(script@.name),
        looped@.creation_date == creation_date@,
        looped@.commands == loop_commands(array@, texts(fields@), script@.commands),
        looped@.commands.len() == loop_length(fields@.len(), script@.commands.len()),
        keeps_body(looped@.commands, script@.commands),
        exports_only(looped@.commands, texts(fields@)),
{
    let Script { name: source_name, creation_date: _, commands: mut body } = script;
    let ghost body_views = command_views(body@);
    let ghost names = texts(fields@);

    let mut name = "looped ".to_string();
    name.append(source_name.as_str());

    let mut line = "processing row ${".to_string();
    line.append("row");
    line.append("}");

    let mut commands: Vec<Command> = Vec::new();
    commands.push(array);
    commands.push(foreach("data", "row"));
    commands.push(console_log(line.as_str()));

    let mut i: usize = 0;
    while i < fields.len()
        invariant
            i <= fields.len(),
            names == texts(fields@),
            commands@.len() == 3 + i,
            commands@[0]@ == array@,
            commands@[1]@ == foreach_command(data_ident(), row_ident()),
            commands@[2]@ == console_log_command(row_log_line(row_ident())),
            forall|j: int| 0 <= j < i ==> (#[trigger] commands@[3 + j])@ == export_command(names[j]),
        decreases fields.len() - i,
    {
        commands.push(export_row_variable(fields[i].as_str()));
        i += 1;
    }

    let mut i: usize = 0;
    while i < fields.len()
        invariant
            i <= fields.len(),
            names == texts(fields@),
            commands@.len() == 3 + fields.len() + i,
            commands@[0]@ == array@,
            commands@[1]@ == foreach_command(data_ident(), row_ident()),
            commands@[2]@ == console_log_command(row_log_line(row_ident())),
            forall|j: int|
                0 <= j < fields.len() ==> (#[trigger] commands@[3 + j])@ == export_command(
                    names[j],
                ),
            forall|j: int|
                0 <= j < i ==> (#[trigger] commands@[3 + fields.len() + j])@ == echo_command(
                    field_log_line(names[j]),
                ),
        decreases fields.len() - i,
    {
        let field = fields[i].as_str();
        let mut message = "processing row.".to_string();
        message.append(field);
        message.append(" ${");
        message.append(field);
        message.append("}");
        commands.push(echo(message.as_str()));
        i += 1;
    }

    let ghost head = commands@;
    commands.append(&mut body);
    commands.push(end());

    let looped = Script { name, creation_date, commands };
    proof {
        let m = fields@.len() as int;
        let got = looped@.commands;
        let want = loop_commands(array@, names, body_views);
        assert(got.len() == want.len());
        assert forall|k: int| 0 <= k < got.len() implies got[k] == want[k] by {
            if 3 <= k < 3 + m {
                assert(head[3 + (k - 3)]@ == export_command(names[k - 3]));
            } else if 3 + m <= k < 3 + 2 * m {
                assert(head[3 + m + (k - 3 - m)]@ == echo_command(
                    field_log_line(names[k - 3 - m]),
                ));
            }
        }
        assert(got =~= want);
        lemma_loop_commands(array@, names, body_views);
    }
    looped
}

/// `HashMap::into_values`, collected into a vector: the values of the map,
/// one for each entry, in the order of the map's iterator, which is not
/// fixed.
#[verifier::external_body]
fn into_scripts(scripts: HashMap<String, Script>) -> (values: Vec<Script>)
    ensures
        values@.len() == scripts.len(),
        forall|i: int| 0 <= i < values@.len() ==> scripts@.contains_value(#[trigger] values@[i]),
        forall|script: Script| #[trigger]
            scripts@.contains_value(script) ==> values@.contains(script),
{
    scripts.into_values().collect()
}

/// Makes of the one script in `scripts` a script that replays its commands
/// once for each row of `data`.
///
/// Any number of scripts but one is refused, and so is a table without
/// rows. The fields of the first row decide which variables are exported;
/// the other rows are not held to them. All rows go into the declared array.
/// The creation date is today's, in UTC.
pub fn generate_loop_script(scripts: HashMap<String, Script>, data: Vec<Row>) -> (r: Result<
    Script,
    AppError,
>)
    ensures
        scripts.len() != 1 ==> fails_with(r, only_one_script()),
        scripts.len() == 1 && data@.len() == 0 ==> fails_with(r, empty_input()),
        scripts.len() == 1 && data@.len() > 0 ==> match json_text(data@) {
            None => fails_with(r, serialization_failed()),
            Some(json) => r matches Ok(looped) && exists|source: Script|
                #![trigger scripts@.contains_value(source)]
                scripts@.contains_value(source) && is_loop_of(
                    looped@,
                    source@,
                    json,
                    field_names(data@[0]),
                ),
        },
{
    if scripts.len() != 1 {
        return Err(AppError::OtherError("only one script supported".to_string()));
    }
    let mut values = into_scripts(scripts);
    let script = values.pop().unwrap();
    if data.len() == 0 {
        return Err(AppError::OtherError("empty input data".to_string()));
    }
    let fields = row_keys(&data[0]);
    let creation_date = utc_today("%Y-%d-%m");
    match declare_array(data, "data") {
        Err(e) => Err(e),
        Ok(array) => {
            let ghost source = script;
            let looped = wrap_in_loop(script, &fields, array, creation_date);
            assert(scripts@.contains_value(source) && is_loop_of(
                looped@,
                source@,
                json_text(data@)->0,
                field_names(data@[0]),
            ));
            Ok(looped)
        },
    }
}

} // verus!
