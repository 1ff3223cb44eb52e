//! The request that sends a document.

use crate::http::request::models::{
    ChatId, ChatIdView, FieldView, Form, InputFile, InputFileView, ParseMode, PartView,
};
use crate::io::fidc::resolver::Resolution;
use crate::operations::bot::send::document::DocumentParams;
use crate::operations::bot::send::{MessageFormat, SendParams};
use std::path::PathBuf;
use vstd::prelude::*;

verus! {

/// What the request is made from: what every send operation knows, and
/// what the document operation sends.
pub type SendDocumentParams = (SendParams, DocumentParams);

/// A model for /sendDocument request.
#[derive(Debug)]
pub struct SendDocumentRequestModel {
    chat_id: ChatId,
    document: InputFile,
    thumbnail: Option<InputFile>,
    caption: Option<String>,
    parse_mode: ParseMode,
    disable_notification: bool,
}

/// The mathematical value of a [`SendDocumentRequestModel`].
pub struct SendDocumentRequestView {
    pub chat_id: ChatIdView,
    pub document: InputFileView,
    pub thumbnail: Option<InputFileView>,
    pub caption: Option<Seq<char>>,
    pub parse_mode: ParseMode,
    pub disable_notification: bool,
}

impl View for SendDocumentRequestModel {
    type V = SendDocumentRequestView;

    closed spec fn view(&self) -> SendDocumentRequestView {
        SendDocumentRequestView {
            chat_id: self.chat_id@,
            document: self.document@,
            thumbnail: match self.thumbnail {
                Some(file) => Some(file@),
                None => None,
            },
            caption: match self.caption {
                Some(caption) => Some(caption@),
                None => None,
            },
            parse_mode: self.parse_mode,
            disable_notification: self.disable_notification,
        }
    }
}

/// The request that sends what `document` says to whom `receiver` names,
/// marked up as `format` says and as silently as `silent` says. The file
/// and its thumbnail are files on this machine.
pub open spec fn request_of(
    receiver: Seq<char>,
    format: MessageFormat,
    silent: bool,
    file: PathBuf,
    thumbnail: Option<PathBuf>,
    message: Option<Seq<char>>,
) -> SendDocumentRequestView {
    SendDocumentRequestView {
        chat_id: ChatIdView::of_receiver(receiver),
        document: InputFileView::Local(file),
        thumbnail: match thumbnail {
            Some(path) => Some(InputFileView::Local(path)),
            None => None,
        },
        caption: message,
        parse_mode: match format {
            MessageFormat::Markdown => ParseMode::Markdown,
            MessageFormat::HTML => ParseMode::HTML,
        },
        disable_notification: silent,
    }
}

/// The form that carries `request`.
///
/// The chat id and the parse mode come first. The caption follows where
/// there is one, then the document, then the thumbnail where there is one.
/// A request that is to arrive silently ends with the field that says so.
pub open spec fn form_of(request: SendDocumentRequestView) -> Seq<FieldView> {
    let head = seq![
        FieldView { name: "chat_id"@, part: PartView::Text(request.chat_id.text()) },
        FieldView { name: "parse_mode"@, part: PartView::Text(request.parse_mode.text()) },
    ];
    let caption = match request.caption {
        Some(caption) => seq![FieldView { name: "caption"@, part: PartView::Text(caption) }],
        None => seq![],
    };
    let document = seq![FieldView { name: "document"@, part: request.document.part() }];
    let thumbnail = match request.thumbnail {
        Some(file) => seq![FieldView { name: "thumbnail"@, part: file.part() }],
        None => seq![],
    };
    let notification = if request.disable_notification {
        seq![FieldView { name: "disable_notification"@, part: PartView::Text("true"@) }]
    } else {
        seq![]
    };
    head + caption + document + thumbnail + notification
}

impl SendDocumentRequestModel {
    /// The request that sends the document of `params.1` as `params.0`
    /// says.
    pub fn from(params: SendDocumentParams) -> (model: Self)
        ensures
            model@ == request_of(
                params.0.receiver@,
                params.0.format,
                params.0.silent,
                params.1@.file,
                params.1@.thumbnail,
                params.1@.message,
            ),
    {
        let (send, document) = params;
        let (file, thumbnail, caption) = document.into_parts();
        let chat_id = ChatId::of_receiver(send.receiver);
        let parse_mode = match send.format {
            MessageFormat::Markdown => ParseMode::Markdown,
            MessageFormat::HTML => ParseMode::HTML,
        };
        let thumbnail = match thumbnail {
            Some(path) => Some(InputFile::Local(path)),
            None => None,
        };
        SendDocumentRequestModel {
            chat_id,
            caption,
            parse_mode,
            document: InputFile::Local(file),
            thumbnail,
            disable_notification: send.silent,
        }
    }

    /// The chat that the request is for.
    pub fn chat_id(&self) -> (chat_id: &ChatId)
        ensures
            chat_id@ == self@.chat_id,
    {
        &self.chat_id
    }

    /// The document.
    pub fn document(&self) -> (document: &InputFile)
        ensures
            document@ == self@.document,
    {
        &self.document
    }

    /// The image that stands for the document in the chat.
    pub fn thumbnail(&self) -> (thumbnail: Option<&InputFile>)
        ensures
            match thumbnail {
                Some(file) => self@.thumbnail == Some(file@),
                None => self@.thumbnail is None,
            },
    {
        self.thumbnail.as_ref()
    }

    /// The caption.
    pub fn caption(&self) -> (caption: Option<&str>)
        ensures
            match caption {
                Some(text) => self@.caption == Some(text@),
                None => self@.caption is None,
            },
    {
        match &self.caption {
            Some(text) => Some(text.as_str()),
            None => None,
        }
    }

    /// How the caption is marked up.
    pub fn parse_mode(&self) -> (parse_mode: ParseMode)
        ensures
            parse_mode == self@.parse_mode,
    {
        self.parse_mode
    }

    /// Whether the request is to arrive silently.
    pub fn disable_notification(&self) -> (silent: bool)
        ensures
            silent == self@.disable_notification,
    {
        self.disable_notification
    }

    /// The request with `document` in place of its document: the same file
    /// by another name, such as the file reference id that the cache holds
    /// for it.
    pub fn with_document(self, document: InputFile) -> (model: Self)
        ensures
            model@ == (SendDocumentRequestView { document: document@, ..self@ }),
    {
        SendDocumentRequestModel { document, ..self }
    }

    /// The request after its document was resolved: the document goes out
    /// as the file reference id of `resolution`, and all else as it was.
    pub fn resolved(self, resolution: &Resolution) -> (model: Self)
        ensures
            model@ == (SendDocumentRequestView {
                document: InputFileView::Id(resolution@.reference_id),
                ..self@
            }),
    {
        let id = resolution.reference_id().as_str().to_owned();
        self.with_document(InputFile::Id(id))
    }
}

impl Form {
    /// The form that carries `model`.
    pub fn from(model: SendDocumentRequestModel) -> (form: Form)
        ensures
            form@ == form_of(model@),
    {
        let form = Form::new().text("chat_id", model.chat_id.to_text()).text(
            "parse_mode",
            model.parse_mode.to_text(),
        );
        let form = match model.caption {
            Some(caption) => form.text("caption", caption),
            None => form,
        };
        let form = form.input("document", model.document);
        let form = match model.thumbnail {
            Some(file) => form.input("thumbnail", file),
            None => form,
        };
        let form = if model.disable_notification {
            form.text("disable_notification", "true".to_owned())
        } else {
            form
        };
        assert(form@ =~= form_of(model@));
        form
    }
}

} // verus!
