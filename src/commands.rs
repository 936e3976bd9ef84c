use vstd::prelude::*;

verus! {

/// What the user asked for, one command per run.
pub struct Cli {
    pub command: Commands,
}

pub enum Commands {
    /// Manage categories.
    Category(CategoryCommands),
    /// Manage tags.
    Tag(TagCommands),
    /// Manage work sessions.
    Session(SessionCommands),
    /// Show the analysis.
    Analysis(AnalysisArgs),
    /// Set the total weekly quota in hours.
    SetQuota { hours: u32 },
}

pub enum CategoryCommands {
    Create { name: String, quota: u32 },
    List,
    Update { name: String, quota: u32 },
    Delete { name: String },
}

pub enum TagCommands {
    Create { name: String },
    List,
    Delete { name: String },
}

pub enum SessionCommands {
    Start { title: String, category: String, tags: Vec<String>, duration: u32 },
    End { id: String },
    List,
    Delete { id: String },
}

pub struct AnalysisArgs {
    /// Period name: day, week, month or year.
    pub period: String,
    pub category: Option<String>,
}

impl Commands {
    /// Whether the command may change the store, so that it is written back
    /// after success.
    pub fn mutates(&self) -> (r: bool)
        ensures
            r == !(self matches Commands::Analysis(_) || self matches Commands::Category(
                CategoryCommands::List,
            ) || self matches Commands::Tag(TagCommands::List) || self matches Commands::Session(
                SessionCommands::List,
            )),
    {
        match self {
            Commands::Category(CategoryCommands::List) => false,
            Commands::Tag(TagCommands::List) => false,
            Commands::Session(SessionCommands::List) => false,
            Commands::Analysis(_) => false,
            _ => true,
        }
    }
}

} // verus!
