//! Outputs, as the configuration program sees them.

use vstd::prelude::*;
use crate::api::layout::StreamError;

verus! {

/// A tag, by its identifier.
#[derive(Clone, Copy, Debug, PartialEq, Eq, Structural)]
pub struct TagHandle {
    pub id: u32,
}

/// The answer to a request for the properties of an output.
#[derive(Debug)]
pub struct GetPropertiesResponse {
    pub make: Option<String>,
    pub model: Option<String>,
    pub x: Option<i32>,
    pub y: Option<i32>,
    pub pixel_width: Option<u32>,
    pub pixel_height: Option<u32>,
    pub refresh_rate: Option<u32>,
    pub physical_width: Option<u32>,
    pub physical_height: Option<u32>,
    pub focused: Option<bool>,
    pub tag_ids: Vec<u32>,
}

/// A request to move an output.
#[derive(Debug)]
pub struct SetLocationRequest {
    pub output_name: Option<String>,
    pub x: Option<i32>,
    pub y: Option<i32>,
}

/// A message of the stream that announces outputs.
#[derive(Debug)]
pub struct ConnectForAllResponse {
    pub output_name: Option<String>,
}

/// The properties of an output.
#[derive(Clone, Debug)]
pub struct OutputProperties {
    pub make: Option<String>,
    pub model: Option<String>,
    pub x: Option<i32>,
    pub y: Option<i32>,
    pub pixel_width: Option<u32>,
    pub pixel_height: Option<u32>,
    pub refresh_rate: Option<u32>,
    pub physical_width: Option<u32>,
    pub physical_height: Option<u32>,
    pub focused: Option<bool>,
    pub tags: Vec<TagHandle>,
}

/// An output, by its name.
#[derive(Debug)]
pub struct OutputHandle {
    name: String,
}

/// The handle of the tag with this identifier.
pub open spec fn tag_of() -> spec_fn(u32) -> TagHandle {
    |id: u32| TagHandle { id }
}

impl OutputHandle {
    /// The name of the output.
    pub closed spec fn named(&self) -> String {
        self.name
    }

    /// The name of the output.
    pub fn name(&self) -> (r: &String)
        ensures
            *r == self.named(),
    {
        &self.name
    }

    /// The request that moves this output to (`x`, `y`). A coordinate that is
    /// `None` stays as it is.
    pub fn set_location(&self, x: Option<i32>, y: Option<i32>) -> (r: SetLocationRequest)
        ensures
            r.output_name == Some(self.named()),
            r.x == x,
            r.y == y,
    {
        SetLocationRequest { output_name: Some(self.name.clone()), x, y }
    }

    /// The properties of this output, out of the compositor's answer: each
    /// part as it came, and a handle for each tag.
    pub fn props(&self, response: GetPropertiesResponse) -> (r: OutputProperties)
        ensures
            r.make == response.make,
            r.model == response.model,
            r.x == response.x,
            r.y == response.y,
            r.pixel_width == response.pixel_width,
            r.pixel_height == response.pixel_height,
            r.refresh_rate == response.refresh_rate,
            r.physical_width == response.physical_width,
            r.physical_height == response.physical_height,
            r.focused == response.focused,
            r.tags@ == response.tag_ids@.map_values(tag_of()),
    {
        let mut tags: Vec<TagHandle> = Vec::new();
        let mut i: usize = 0;
        while i < response.tag_ids.len()
            invariant
                i <= response.tag_ids.len(),
                tags@ == response.tag_ids@.take(i as int).map_values(tag_of()),
            decreases response.tag_ids.len() - i,
        {
            tags.push(TagHandle { id: response.tag_ids[i] });
            proof {
                assert(response.tag_ids@.take(i + 1).map_values(tag_of()) =~= response.tag_ids@.take(
                    i as int,
                ).map_values(tag_of()).push(tag_of()(response.tag_ids@[i as int])));
            }
            i = i + 1;
        }
        proof {
            assert(response.tag_ids@.take(response.tag_ids.len() as int) =~= response.tag_ids@);
        }
        OutputProperties {
            make: response.make,
            model: response.model,
            x: response.x,
            y: response.y,
            pixel_width: response.pixel_width,
            pixel_height: response.pixel_height,
            refresh_rate: response.refresh_rate,
            physical_width: response.physical_width,
            physical_height: response.physical_height,
            focused: response.focused,
            tags,
        }
    }
}

/// The names that a stream of announcements announces: the name of each
/// message that has one, up to the first failure of the stream, where the
/// stream ends.
pub open spec fn announced(responses: Seq<Result<ConnectForAllResponse, StreamError>>) -> Seq<String>
    decreases responses.len(),
{
    if responses.len() == 0 {
        Seq::empty()
    } else {
        match responses[0] {
            Err(_) => Seq::empty(),
            Ok(response) => match response.output_name {
                Some(name) => seq![name] + announced(responses.skip(1)),
                None => announced(responses.skip(1)),
            },
        }
    }
}

/// The names of the handles.
pub open spec fn names_of(handles: Seq<OutputHandle>) -> Seq<String> {
    handles.map_values(|h: OutputHandle| h.named())
}

/// Whether `i` is the place of the first output that has the focus.
pub open spec fn first_focused(outputs: Seq<(OutputHandle, OutputProperties)>, i: int) -> bool {
    &&& 0 <= i < outputs.len()
    &&& outputs[i].1.focused == Some(true)
    &&& forall|j: int| 0 <= j < i ==> (#[trigger] outputs[j]).1.focused != Some(true)
}

/// The outputs of the compositor.
#[derive(Debug)]
pub struct Output {}

impl Output {
    /// The outputs of the compositor, to be asked for.
    pub fn new() -> Self {
        Output {  }
    }

    /// A handle for each output that the compositor names, in the order of
    /// the names.
    pub fn get_all(&self, output_names: Vec<String>) -> (r: Vec<OutputHandle>)
        ensures
            names_of(r@) == output_names@,
    {
        let ghost names = output_names@;
        let mut handles: Vec<OutputHandle> = Vec::new();
        for name in it: output_names
            invariant
                it.seq() == names,
                names_of(handles@) == names.take(it.index() as int),
        {
            let ghost before = handles@;
            handles.push(OutputHandle { name });
            proof {
                assert(names_of(handles@) =~= names_of(before).push(name));
                assert(names.take(it.index() + 1) =~= names.take(it.index() as int).push(name));
            }
        }
        proof {
            assert(names.take(names.len() as int) =~= names);
        }
        handles
    }

    /// The output that has the focus: of the outputs, each with its
    /// properties, the first whose properties say so.
    pub fn get_focused(&self, outputs: Vec<(OutputHandle, OutputProperties)>) -> (r: Option<
        OutputHandle,
    >)
        ensures
            match r {
                Some(handle) => exists|i: int|
                    first_focused(outputs@, i) && handle == (#[trigger] outputs@[i]).0,
                None => forall|i: int|
                    0 <= i < outputs.len() ==> (#[trigger] outputs@[i]).1.focused != Some(true),
            },
    {
        let ghost all = outputs@;
        for pair in it: outputs
            invariant
                it.seq() == all,
                forall|j: int| 0 <= j < it.index() ==> (#[trigger] all[j]).1.focused != Some(true),
        {
            let focused = match pair.1.focused {
                Some(true) => true,
                _ => false,
            };
            if focused {
                proof {
                    assert(first_focused(all, it.index() as int));
                }
                return Some(pair.0);
            }
        }
        None
    }

    /// The outputs for which the caller's callback is due: those that exist,
    /// and then each one that the stream announces.
    pub fn connect_for_all(
        &self,
        existing: Vec<OutputHandle>,
        responses: Vec<Result<ConnectForAllResponse, StreamError>>,
    ) -> (r: Vec<OutputHandle>)
        ensures
            names_of(r@) == names_of(existing@) + announced(responses@),
    {
        let ghost all = responses@;
        let mut handles = existing;
        proof {
            assert(all.skip(0) =~= all);
        }
        for response in it: responses
            invariant
                it.seq() == all,
                names_of(handles@) + announced(all.skip(it.index() as int)) == names_of(existing@)
                    + announced(all),
        {
            let ghost rest = all.skip(it.index() as int);
            proof {
                assert(rest[0] == response);
                assert(rest.skip(1) =~= all.skip(it.index() + 1));
            }
            match response {
                Ok(message) => match message.output_name {
                    Some(name) => {
                        let ghost before = handles@;
                        handles.push(OutputHandle { name });
                        proof {
                            assert(names_of(handles@) =~= names_of(before).push(name));
                            assert(names_of(handles@) + announced(rest.skip(1)) =~= names_of(before)
                                + announced(rest));
                        }
                    },
                    None => {},
                },
                Err(_) => {
                    proof {
                        assert(names_of(handles@) =~= names_of(existing@) + announced(all));
                    }
                    return handles;
                },
            }
        }
        proof {
            assert(announced(all.skip(all.len() as int)) =~= Seq::<String>::empty());
            assert(names_of(handles@) =~= names_of(existing@) + announced(all));
        }
        handles
    }
}

} // verus!
