use vstd::prelude::*;
use vstd::string::StringExecFns;

use crate::errors::DatasetError;

verus! {

/// The prompt synthesized from one multiple-choice record: a fixed question
/// template, then the question and the four answer options.
pub open spec fn synthesized_prompt(
    question: Seq<char>,
    a: Seq<char>,
    b: Seq<char>,
    c: Seq<char>,
    d: Seq<char>,
) -> Seq<char> {
    "回答问题并且解释原因: "@ + question + ", A: "@ + a + ", B: "@ + b + ", C: "@ + c + ", D: "@
        + d
}

/// Build one prompt from a question and its four answer options.
pub fn synthesize_prompt(question: &str, a: &str, b: &str, c: &str, d: &str) -> (r: String)
    ensures
        r@ == synthesized_prompt(question@, a@, b@, c@, d@),
{
    let mut s = "回答问题并且解释原因: ".to_owned();
    s.append(question);
    s.append(", A: ");
    s.append(a);
    s.append(", B: ");
    s.append(b);
    s.append(", C: ");
    s.append(c);
    s.append(", D: ");
    s.append(d);
    s
}

/// One prompt from one dataset record's columns: the first column is
/// skipped, the next five are the question and options A through D. A
/// record with fewer columns is a hard error that aborts dataset loading.
pub fn prompt_from_record(fields: &Vec<String>) -> (r: Result<String, DatasetError>)
    ensures
        fields@.len() >= 6 ==> (r matches Ok(p) && p@ == synthesized_prompt(
            fields@[1]@,
            fields@[2]@,
            fields@[3]@,
            fields@[4]@,
            fields@[5]@,
        )),
        fields@.len() < 6 ==> r == Err::<String, DatasetError>(DatasetError::MissingColumns),
{
    if fields.len() < 6 {
        Err(DatasetError::MissingColumns)
    } else {
        Ok(
            synthesize_prompt(
                fields[1].as_str(),
                fields[2].as_str(),
                fields[3].as_str(),
                fields[4].as_str(),
                fields[5].as_str(),
            ),
        )
    }
}

/// Turn a whole collection of dataset records into prompts: one prompt per
/// record, in record order. The first record with too few columns aborts
/// loading with a hard error.
pub fn prompts_from_records(records: &Vec<Vec<String>>) -> (r: Result<Vec<String>, DatasetError>)
    ensures
        r is Err <==> exists|i: int| 0 <= i < records@.len() && records@[i]@.len() < 6,
        r matches Err(e) ==> e == DatasetError::MissingColumns,
        r matches Ok(prompts) ==> prompts@.len() == records@.len() && forall|i: int|
            #![trigger records@[i]]
            0 <= i < records@.len() ==> prompts@[i]@ == synthesized_prompt(
                records@[i]@[1]@,
                records@[i]@[2]@,
                records@[i]@[3]@,
                records@[i]@[4]@,
                records@[i]@[5]@,
            ),
{
    let mut prompts: Vec<String> = Vec::new();
    let mut i: usize = 0;
    while i < records.len()
        invariant
            0 <= i <= records@.len(),
            prompts@.len() == i,
            forall|j: int|
                #![trigger records@[j]]
                0 <= j < i ==> records@[j]@.len() >= 6 && prompts@[j]@ == synthesized_prompt(
                    records@[j]@[1]@,
                    records@[j]@[2]@,
                    records@[j]@[3]@,
                    records@[j]@[4]@,
                    records@[j]@[5]@,
                ),
        decreases records@.len() - i,
    {
        match prompt_from_record(&records[i]) {
            Ok(p) => prompts.push(p),
            Err(e) => {
                assert(records@[i as int]@.len() < 6);
                return Err(e);
            },
        }
        i = i + 1;
    }
    Ok(prompts)
}

} // verus!
