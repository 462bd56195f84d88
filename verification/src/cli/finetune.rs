//! The options of the fine-tune operations.

use vstd::prelude::*;

verus! {

/// What the caller asked of the fine-tune operations.
#[derive(Debug, Clone, PartialEq, Eq)]
pub struct CliFineTune {
    /// The identifier of a job.
    pub fine_tune_id: Option<String>,
    /// Whether the events of the job are asked for.
    pub events: bool,
    /// The identifier of the uploaded file that holds the training data.
    pub training_file: Option<String>,
    /// The identifier of the uploaded file that holds the validation data.
    pub validation_file: Option<String>,
    /// The base model to tune.
    pub model: String,
    /// How many epochs to train for.
    pub n_epochs: i32,
    /// The weight of the loss on prompt tokens, as decimal text.
    pub prompt_loss_weight: String,
    /// Whether classification metrics are computed.
    pub compute_classification_metrics: bool,
    /// A text added to the name of the tuned model.
    pub suffix: Option<String>,
    /// The batch size.
    pub batch_size: Option<u32>,
    /// The number of classes of a classification task.
    pub classification_n_classes: Option<u32>,
    /// The positive class of a binary classification.
    pub classification_positive_class: Option<String>,
    /// The beta values at which F-beta scores are computed.
    pub classification_betas: Option<Vec<String>>,
    /// Whether the job is to be cancelled.
    pub cancel: bool,
}

impl CliFineTune {
    /// The identifier of the uploaded file that holds the training data.
    pub fn training_file(&self) -> (value: Option<String>)
        ensures
            value == self.training_file,
    {
        match &self.training_file {
            Some(file) => Some(file.clone()),
            None => None,
        }
    }

    /// Whether the job is to be cancelled.
    pub fn cancel(&self) -> (value: bool)
        ensures
            value == self.cancel,
    {
        self.cancel
    }

    /// The identifier of a job.
    pub fn fine_tune_id(&self) -> (value: &Option<String>)
        ensures
            *value == self.fine_tune_id,
    {
        &self.fine_tune_id
    }

    /// Whether the events of the job are asked for.
    pub fn events(&self) -> (value: &bool)
        ensures
            *value == self.events,
    {
        &self.events
    }

    /// The identifier of the uploaded file that holds the validation data.
    pub fn validation_file(&self) -> (value: &Option<String>)
        ensures
            *value == self.validation_file,
    {
        &self.validation_file
    }

    /// The base model to tune.
    pub fn model(&self) -> (value: &String)
        ensures
            *value == self.model,
    {
        &self.model
    }

    /// How many epochs to train for.
    pub fn n_epochs(&self) -> (value: &i32)
        ensures
            *value == self.n_epochs,
    {
        &self.n_epochs
    }

    /// The weight of the loss on prompt tokens, as decimal text.
    pub fn prompt_loss_weight(&self) -> (value: &String)
        ensures
            *value == self.prompt_loss_weight,
    {
        &self.prompt_loss_weight
    }

    /// Whether classification metrics are computed.
    pub fn compute_classification_metrics(&self) -> (value: &bool)
        ensures
            *value == self.compute_classification_metrics,
    {
        &self.compute_classification_metrics
    }

    /// A text added to the name of the tuned model.
    pub fn suffix(&self) -> (value: &Option<String>)
        ensures
            *value == self.suffix,
    {
        &self.suffix
    }

    /// The batch size.
    pub fn batch_size(&self) -> (value: &Option<u32>)
        ensures
            *value == self.batch_size,
    {
        &self.batch_size
    }

    /// The number of classes of a classification task.
    pub fn classification_n_classes(&self) -> (value: &Option<u32>)
        ensures
            *value == self.classification_n_classes,
    {
        &self.classification_n_classes
    }

    /// The positive class of a binary classification.
    pub fn classification_positive_class(&self) -> (value: &Option<String>)
        ensures
            *value == self.classification_positive_class,
    {
        &self.classification_positive_class
    }

    /// The beta values at which F-beta scores are computed.
    pub fn classification_betas(&self) -> (value: &Option<Vec<String>>)
        ensures
            *value == self.classification_betas,
    {
        &self.classification_betas
    }
}

} // verus!
