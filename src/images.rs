//! Image creation requests and responses.
use vstd::prelude::*;
use crate::client::{OpenAIRequest, OpenAIResponse};
use crate::json::{Field, Json, string_list};
use crate::numbers::{decimal, decimal_text};

verus! {

/// A request for images drawn from `prompt`: `n` of them and of `size`
/// where set; unset options are left out of the body.
#[derive(Debug, Clone, PartialEq, Eq)]
pub struct CreateImageRequest {
    pub prompt: String,
    pub n: Option<u64>,
    pub size: Option<String>,
}

/// Where one created image can be fetched.
#[derive(Debug, Clone, PartialEq, Eq)]
pub struct ImageData {
    pub url: String,
}

/// The created images, in the order the API gave them.
#[derive(Debug, Clone, PartialEq, Eq)]
pub struct ImageResponse {
    pub data: Vec<ImageData>,
}

pub open spec fn image_fields(prompt: Seq<char>, n: Option<u64>, size: Option<Seq<char>>) -> Seq<(Seq<char>, Field)> {
    seq![("prompt"@, Field::Text(prompt))]
        + match n {
            Some(k) => seq![("n"@, Field::Number(decimal_text(k as nat)))],
            None => seq![],
        }
        + match size {
            Some(s) => seq![("size"@, Field::Text(s))],
            None => seq![],
        }
}

impl CreateImageRequest {
    /// A request with the API's defaults for count and size.
    pub fn new(prompt: &str) -> (r: CreateImageRequest)
        ensures
            r.prompt@ == prompt@,
            r.n is None,
            r.size is None,
    {
        CreateImageRequest { prompt: prompt.to_owned(), n: None, size: None }
    }

    /// The same request asking for `n` images.
    pub fn n(self, n: u64) -> (r: CreateImageRequest)
        ensures
            r == (CreateImageRequest { n: Some(n), ..self }),
    {
        CreateImageRequest { n: Some(n), ..self }
    }

    /// The same request asking for images of `size`, such as `256x256`.
    pub fn size(self, size: &str) -> (r: CreateImageRequest)
        ensures
            r.prompt == self.prompt,
            r.n == self.n,
            r.size is Some && r.size->Some_0@ == size@,
    {
        CreateImageRequest { size: Some(size.to_owned()), ..self }
    }
}

impl OpenAIRequest for CreateImageRequest {
    open spec fn endpoint_spec(&self) -> Seq<char> {
        "https://api.openai.com/v1/images/generations"@
    }

    open spec fn fields(&self) -> Seq<(Seq<char>, Field)> {
        let size = match self.size {
            Some(s) => Some(s@),
            None => None,
        };
        image_fields(self.prompt@, self.n, size)
    }

    fn endpoint(&self) -> (r: &str) {
        "https://api.openai.com/v1/images/generations"
    }

    fn to_json(&self) -> (r: Json) {
        let mut members: Vec<(String, Json)> = Vec::new();
        members.push(("prompt".to_owned(), Json::Str(self.prompt.clone())));
        match self.n {
            Some(k) => members.push(("n".to_owned(), Json::Number(decimal(k)))),
            None => {},
        }
        match &self.size {
            Some(s) => members.push(("size".to_owned(), Json::Str(s.clone()))),
            None => {},
        }
        let r = Json::Object(members);
        assert(r->Object_0@.len() == self.fields().len());
        r
    }
}

impl OpenAIResponse for ImageResponse {
    open spec fn decodes(j: Json, r: ImageResponse) -> bool {
        let urls = string_list(j, "data"@, "url"@)->Some_0;
        &&& string_list(j, "data"@, "url"@) is Some
        &&& r.data@.len() == urls.len()
        &&& forall|i: int| 0 <= i < urls.len() ==> (#[trigger] r.data@[i]).url@ == urls[i]
    }

    open spec fn decodable(j: Json) -> bool {
        string_list(j, "data"@, "url"@) is Some
    }

    fn from_json(j: &Json) -> (r: Option<ImageResponse>) {
        let urls = match j.string_list("data", "url") {
            Some(u) => u,
            None => return None,
        };
        let mut data: Vec<ImageData> = Vec::new();
        let mut i: usize = 0;
        while i < urls.len()
            invariant
                0 <= i <= urls.len(),
                urls@.map_values(|s: String| s@) == string_list(*j, "data"@, "url"@)->Some_0,
                data@.len() == i,
                forall|k: int| 0 <= k < i ==> (#[trigger] data@[k]).url@ == urls@[k]@,
            decreases urls.len() - i,
        {
            data.push(ImageData { url: urls[i].clone() });
            i = i + 1;
        }
        Some(ImageResponse { data })
    }
}

} // verus!
