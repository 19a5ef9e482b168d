use vstd::prelude::*;

verus! {

/// The input of an embedding call: one text, or an ordered batch of texts.
pub enum Input {
    SingleText(String),
    BatchTexts(Vec<String>),
}

/// An embedding call. `input` is `None` when the caller set neither field.
pub struct EmbeddingRequest {
    pub input: Option<Input>,
}

/// Why a call is answered with an error.
#[derive(PartialEq, Eq, Structural, Clone, Copy, Debug)]
pub enum ServiceError {
    /// Neither a single text nor a batch was given.
    NoInput,
    /// A batch was given, and it holds no text.
    EmptyInput,
    /// The model failed, or did not give one vector per text.
    EmbeddingFailed,
}

/// The status a failed call is reported with.
#[derive(PartialEq, Eq, Structural, Clone, Copy, Debug)]
pub enum StatusCode {
    InvalidArgument,
    Internal,
}

/// The texts a request asks to embed, in order, or the error it is refused with.
pub open spec fn requested_texts(req: EmbeddingRequest) -> Result<Seq<String>, ServiceError> {
    match req.input {
        None => Err(ServiceError::NoInput),
        Some(Input::SingleText(t)) => Ok(seq![t]),
        Some(Input::BatchTexts(ts)) => if ts@.len() == 0 {
            Err(ServiceError::EmptyInput)
        } else {
            Ok(ts@)
        },
    }
}

/// The status code each error is reported with.
pub open spec fn spec_code(e: ServiceError) -> StatusCode {
    match e {
        ServiceError::NoInput | ServiceError::EmptyInput => StatusCode::InvalidArgument,
        ServiceError::EmbeddingFailed => StatusCode::Internal,
    }
}

/// The message each error is reported with.
pub open spec fn spec_message(e: ServiceError) -> Seq<char> {
    match e {
        ServiceError::NoInput => "No input provided"@,
        ServiceError::EmptyInput => "Empty input provided"@,
        ServiceError::EmbeddingFailed => "Failed to generate embeddings"@,
    }
}

impl ServiceError {
    /// The status code this error is reported with.
    pub fn code(&self) -> (r: StatusCode)
        ensures
            r == spec_code(*self),
    {
        match self {
            ServiceError::NoInput | ServiceError::EmptyInput => StatusCode::InvalidArgument,
            ServiceError::EmbeddingFailed => StatusCode::Internal,
        }
    }

    /// The message this error is reported with.
    pub fn message(&self) -> (r: String)
        ensures
            r@ == spec_message(*self),
    {
        match self {
            ServiceError::NoInput => "No input provided".to_owned(),
            ServiceError::EmptyInput => "Empty input provided".to_owned(),
            ServiceError::EmbeddingFailed => "Failed to generate embeddings".to_owned(),
        }
    }
}

/// Turns a request into the list of texts to embed: a single text becomes a
/// list of one; a batch is taken as it is. A request with no input, or with an
/// empty batch, is refused.
pub fn texts_of(req: EmbeddingRequest) -> (r: Result<Vec<String>, ServiceError>)
    ensures
        r matches Ok(ts) ==> requested_texts(req) == Ok::<Seq<String>, ServiceError>(ts@),
        r matches Err(e) ==> requested_texts(req) == Err::<Seq<String>, ServiceError>(e),
{
    match req.input {
        None => Err(ServiceError::NoInput),
        Some(Input::SingleText(text)) => {
            let mut texts: Vec<String> = Vec::new();
            texts.push(text);
            proof {
                assert(texts@ =~= seq![text]);
            }
            Ok(texts)
        },
        Some(Input::BatchTexts(texts)) => {
            if texts.len() == 0 {
                Err(ServiceError::EmptyInput)
            } else {
                Ok(texts)
            }
        },
    }
}

} // verus!
