//! The models of the requests, as the messaging API takes them, and the
//! multipart form that carries a model.

pub mod decimal;
pub mod senddocument;

use crate::http::request::models::decimal::{decimal_text, parse_usize, parsed_usize, to_decimal};
use std::path::PathBuf;
use vstd::prelude::*;

verus! {

/// The chat that a request is for: its numeric id, or its name.
#[derive(Debug, PartialEq, Eq)]
pub enum ChatId {
    Int(usize),
    Str(String),
}

/// The mathematical value of a [`ChatId`].
pub enum ChatIdView {
    Int(usize),
    Str(Seq<char>),
}

impl View for ChatId {
    type V = ChatIdView;

    open spec fn view(&self) -> ChatIdView {
        match self {
            ChatId::Int(id) => ChatIdView::Int(*id),
            ChatId::Str(name) => ChatIdView::Str(name@),
        }
    }
}

impl ChatIdView {
    /// The chat that `receiver` names: the number that it stands for in
    /// decimal, where it stands for one, and else the text itself.
    pub open spec fn of_receiver(receiver: Seq<char>) -> ChatIdView {
        match parsed_usize(receiver) {
            Some(id) => ChatIdView::Int(id),
            None => ChatIdView::Str(receiver),
        }
    }

    /// The text of the chat id in a request.
    pub open spec fn text(self) -> Seq<char> {
        match self {
            ChatIdView::Int(id) => decimal_text(id as nat),
            ChatIdView::Str(name) => name,
        }
    }
}

impl ChatId {
    /// The chat that `receiver` names.
    pub fn of_receiver(receiver: String) -> (chat_id: ChatId)
        ensures
            chat_id@ == ChatIdView::of_receiver(receiver@),
            chat_id matches ChatId::Str(name) ==> name == receiver,
    {
        match parse_usize(receiver.as_str()) {
            Some(id) => ChatId::Int(id),
            None => ChatId::Str(receiver),
        }
    }

    /// The text of the chat id in a request.
    pub fn to_text(&self) -> (text: String)
        ensures
            text@ == self@.text(),
    {
        match self {
            ChatId::Int(id) => to_decimal(*id),
            ChatId::Str(name) => name.clone(),
        }
    }
}

/// How the messaging API is to read the text of a message.
#[derive(Debug, Clone, Copy, PartialEq, Eq, Structural)]
pub enum ParseMode {
    Markdown,
    HTML,
}

impl ParseMode {
    /// The name of the mode in a request.
    pub open spec fn text(self) -> Seq<char> {
        match self {
            ParseMode::Markdown => "MarkdownV2"@,
            ParseMode::HTML => "HTML"@,
        }
    }

    /// The name of the mode in a request.
    pub fn to_text(&self) -> (text: String)
        ensures
            text@ == self.text(),
    {
        match self {
            ParseMode::Markdown => "MarkdownV2".to_owned(),
            ParseMode::HTML => "HTML".to_owned(),
        }
    }
}

/// A file in a request: one on this machine, to be uploaded; one that the
/// messaging API is to fetch from a URL; or one that it holds already,
/// known by its file reference id.
#[derive(Debug, PartialEq, Eq)]
pub enum InputFile {
    Local(PathBuf),
    Remote(String),
    Id(String),
}

/// The mathematical value of an [`InputFile`].
pub enum InputFileView {
    Local(PathBuf),
    Remote(Seq<char>),
    Id(Seq<char>),
}

impl View for InputFile {
    type V = InputFileView;

    open spec fn view(&self) -> InputFileView {
        match self {
            InputFile::Local(path) => InputFileView::Local(*path),
            InputFile::Remote(url) => InputFileView::Remote(url@),
            InputFile::Id(id) => InputFileView::Id(id@),
        }
    }
}

impl InputFileView {
    /// What stands for the file in a multipart form: the file itself where
    /// it is on this machine, and else the URL or the id as text.
    pub open spec fn part(self) -> PartView {
        match self {
            InputFileView::Local(path) => PartView::File(path),
            InputFileView::Remote(url) => PartView::Text(url),
            InputFileView::Id(id) => PartView::Text(id),
        }
    }
}

/// The value of a field of a multipart form.
#[derive(Debug, PartialEq, Eq)]
pub enum Part {
    /// A text.
    Text(String),
    /// The content of the file at a path.
    File(PathBuf),
}

/// The mathematical value of a [`Part`].
pub enum PartView {
    Text(Seq<char>),
    File(PathBuf),
}

impl View for Part {
    type V = PartView;

    open spec fn view(&self) -> PartView {
        match self {
            Part::Text(text) => PartView::Text(text@),
            Part::File(path) => PartView::File(*path),
        }
    }
}

/// A field of a multipart form.
#[derive(Debug)]
pub struct Field {
    name: String,
    part: Part,
}

/// The mathematical value of a [`Field`].
pub struct FieldView {
    pub name: Seq<char>,
    pub part: PartView,
}

impl View for Field {
    type V = FieldView;

    closed spec fn view(&self) -> FieldView {
        FieldView { name: self.name@, part: self.part@ }
    }
}

impl Field {
    /// The name of the field.
    pub fn name(&self) -> (name: &str)
        ensures
            name@ == self@.name,
    {
        self.name.as_str()
    }

    /// The value of the field.
    pub fn part(&self) -> (part: &Part)
        ensures
            part@ == self@.part,
    {
        &self.part
    }
}

/// A multipart form: its fields, in the order in which they go out.
#[derive(Debug)]
pub struct Form {
    fields: Vec<Field>,
}

impl View for Form {
    type V = Seq<FieldView>;

    closed spec fn view(&self) -> Seq<FieldView> {
        self.fields@.map_values(|field: Field| field@)
    }
}

impl Form {
    /// A form without fields.
    pub fn new() -> (form: Form)
        ensures
            form@ == Seq::<FieldView>::empty(),
    {
        let form = Form { fields: Vec::new() };
        assert(form@ =~= Seq::<FieldView>::empty());
        form
    }

    /// The form with one more field, last.
    pub fn part(self, name: &str, part: Part) -> (form: Form)
        ensures
            form@ == self@.push(FieldView { name: name@, part: part@ }),
    {
        let mut fields = self.fields;
        let field = Field { name: name.to_owned(), part };
        fields.push(field);
        let form = Form { fields };
        assert(form@ =~= self@.push(field@));
        form
    }

    /// The form with one more field, last, that holds a text.
    pub fn text(self, name: &str, value: String) -> (form: Form)
        ensures
            form@ == self@.push(FieldView { name: name@, part: PartView::Text(value@) }),
    {
        self.part(name, Part::Text(value))
    }

    /// The form with one more field, last, that holds a file.
    pub fn input(self, name: &str, file: InputFile) -> (form: Form)
        ensures
            form@ == self@.push(FieldView { name: name@, part: file@.part() }),
    {
        match file {
            InputFile::Local(path) => self.part(name, Part::File(path)),
            InputFile::Remote(url) => self.part(name, Part::Text(url)),
            InputFile::Id(id) => self.part(name, Part::Text(id)),
        }
    }

    /// The number of fields.
    pub fn len(&self) -> (len: usize)
        ensures
            len == self@.len(),
    {
        self.fields.len()
    }

    /// The field at `index`, counted from the first; `None` past the last.
    pub fn field(&self, index: usize) -> (field: Option<&Field>)
        ensures
            match field {
                Some(field) => index < self@.len() && field@ == self@[index as int],
                None => index >= self@.len(),
            },
    {
        if index < self.fields.len() {
            Some(&self.fields[index])
        } else {
            None
        }
    }
}

} // verus!
